//! The agent runtime's routing: a registry of agent profiles, the choice of
//! the agent (and the specialist it delegates to) for a request, and the
//! execution plan reported back.
use crate::access::{opt_view, ApiError};
use crate::ids::{is_v4, new_trace_id, trace_text, uuid_hyphenated_text, uuid_to_hyphenated};
use crate::text::{
    contains_text, lowercase_text, seq_contains, strings_view, to_lowercase_text, trim, trim_text,
};
use vstd::prelude::*;
use vstd::string::*;

verus! {

/// Whether an agent routes work or carries it out.
#[derive(Debug, Clone, Copy, PartialEq, Eq, Structural)]
pub enum AgentType {
    Supervisor,
    Specialist,
}

/// An agent: its name, kind and capability names.
#[derive(Debug)]
pub struct AgentProfile {
    pub name: String,
    pub agent_type: AgentType,
    pub capabilities: Vec<String>,
}

/// An agent profile as values: name, kind, capability names.
pub type ProfileView = (Seq<char>, AgentType, Seq<Seq<char>>);

impl View for AgentProfile {
    type V = ProfileView;

    open spec fn view(&self) -> ProfileView {
        (self.name@, self.agent_type, strings_view(self.capabilities@))
    }
}

/// A copy of a list of strings.
fn copy_strings(v: &Vec<String>) -> (r: Vec<String>)
    ensures
        strings_view(r@) == strings_view(v@),
{
    let n = v.len();
    let mut out: Vec<String> = Vec::new();
    let mut i: usize = 0;
    while i < n
        invariant
            n == v@.len(),
            i <= n,
            strings_view(out@) == strings_view(v@.take(i as int)),
        decreases n - i,
    {
        let ghost prev = out@;
        let c = v[i].clone();
        assert(c@ == v@[i as int]@);
        out.push(c);
        assert(out@ =~= prev.push(c));
        assert(strings_view(out@) =~= strings_view(prev).push(c@));
        assert(v@.take(i + 1) =~= v@.take(i as int).push(v@[i as int]));
        assert(strings_view(v@.take(i + 1)) =~= strings_view(v@.take(i as int)).push(
            v@[i as int]@,
        ));
        i = i + 1;
    }
    assert(v@.take(n as int) =~= v@);
    out
}

/// A list of strings from literals.
fn strings_from(items: &[&str]) -> (r: Vec<String>)
    ensures
        strings_view(r@) == items@.map_values(|s: &str| s@),
{
    let n = items.len();
    let mut out: Vec<String> = Vec::new();
    let mut i: usize = 0;
    while i < n
        invariant
            n == items@.len(),
            i <= n,
            strings_view(out@) == items@.take(i as int).map_values(|s: &str| s@),
        decreases n - i,
    {
        let ghost prev = out@;
        let c = String::from_str(items[i]);
        out.push(c);
        assert(out@ =~= prev.push(c));
        assert(strings_view(out@) =~= strings_view(prev).push(c@));
        assert(items@.take(i + 1) =~= items@.take(i as int).push(items@[i as int]));
        assert(items@.take(i + 1).map_values(|s: &str| s@) =~= items@.take(i as int).map_values(
            |s: &str| s@,
        ).push(items@[i as int]@));
        i = i + 1;
    }
    assert(items@.take(n as int) =~= items@);
    out
}

impl AgentProfile {
    /// A copy of the profile.
    pub fn duplicate(&self) -> (r: Self)
        ensures
            r@ == self@,
    {
        AgentProfile {
            name: self.name.clone(),
            agent_type: self.agent_type,
            capabilities: copy_strings(&self.capabilities),
        }
    }
}

/// The profiles that a list of (key, profile) entries maps its keys to; an
/// entry added later takes the place of an earlier one with the same key.
pub open spec fn entries_map(s: Seq<(String, AgentProfile)>) -> Map<Seq<char>, ProfileView>
    decreases s.len(),
{
    if s.len() == 0 {
        Map::<Seq<char>, ProfileView>::empty()
    } else {
        entries_map(s.drop_last()).insert(s.last().0@, s.last().1@)
    }
}

/// Agent profiles by key.
pub struct AgentRegistry {
    entries: Vec<(String, AgentProfile)>,
}

impl View for AgentRegistry {
    type V = Map<Seq<char>, ProfileView>;

    closed spec fn view(&self) -> Map<Seq<char>, ProfileView> {
        entries_map(self.entries@)
    }
}

/// The view of an optional profile.
pub open spec fn opt_profile_view(p: Option<AgentProfile>) -> Option<ProfileView> {
    match p {
        Some(a) => Some(a@),
        None => None,
    }
}

/// The view of an optional string.
pub open spec fn opt_string_view(s: Option<String>) -> Option<Seq<char>> {
    match s {
        Some(t) => Some(t@),
        None => None,
    }
}

/// The profile that `m` holds under `key`, if any.
pub open spec fn lookup(m: Map<Seq<char>, ProfileView>, key: Seq<char>) -> Option<ProfileView> {
    if m.contains_key(key) {
        Some(m[key])
    } else {
        None
    }
}

impl AgentRegistry {
    /// A registry with no agents.
    pub fn new() -> (r: Self)
        ensures
            r@ == Map::<Seq<char>, ProfileView>::empty(),
    {
        AgentRegistry { entries: Vec::new() }
    }

    /// Registers `profile` under `key`, in place of any profile there.
    pub fn insert(&mut self, key: String, profile: AgentProfile)
        ensures
            final(self)@ == old(self)@.insert(key@, profile@),
    {
        let ghost prev = self.entries@;
        self.entries.push((key, profile));
        assert(self.entries@.drop_last() =~= prev);
    }

    /// The profile registered under `key`, if any.
    pub fn get(&self, key: &str) -> (r: Option<AgentProfile>)
        ensures
            opt_profile_view(r) == lookup(self@, key@),
    {
        let mut i: usize = self.entries.len();
        assert(self.entries@.take(i as int) =~= self.entries@);
        while i > 0
            invariant
                i <= self.entries@.len(),
                lookup(entries_map(self.entries@), key@) == lookup(
                    entries_map(self.entries@.take(i as int)),
                    key@,
                ),
            decreases i,
        {
            let ghost pre = self.entries@.take(i as int);
            assert(pre.drop_last() =~= self.entries@.take(i - 1));
            if crate::text::str_eq(self.entries[i - 1].0.as_str(), key) {
                return Some(self.entries[i - 1].1.duplicate());
            }
            i = i - 1;
        }
        assert(self.entries@.take(0) =~= Seq::<(String, AgentProfile)>::empty());
        None
    }
}

/// The supervisor used when the registry has none.
pub open spec fn default_supervisor() -> ProfileView {
    ("default-supervisor"@, AgentType::Supervisor, seq!["routing"@])
}

/// The specialist that a lower-cased request calls for: workflow and
/// approval requests go to the workflow specialist, tool and connector
/// requests to the tool specialist.
pub open spec fn specialist_key(lower: Seq<char>) -> Option<Seq<char>> {
    if seq_contains(lower, "workflow"@) || seq_contains(lower, "approval"@) {
        Some("workflow-specialist"@)
    } else if seq_contains(lower, "tool"@) || seq_contains(lower, "connector"@) {
        Some("tool-specialist"@)
    } else {
        None
    }
}

/// The key of the specialist that a lower-cased request calls for.
pub fn specialist_for(lower: &str) -> (r: Option<&'static str>)
    ensures
        opt_view(r) == specialist_key(lower@),
{
    if contains_text(lower, "workflow") || contains_text(lower, "approval") {
        Some("workflow-specialist")
    } else if contains_text(lower, "tool") || contains_text(lower, "connector") {
        Some("tool-specialist")
    } else {
        None
    }
}

/// The agent chosen for a request and the specialist it delegates to: a
/// registered preferred agent handles it alone; otherwise the registered
/// `supervisor` (or the default one) handles it, delegating to the
/// registered specialist that the input calls for, if any.
pub open spec fn selection(
    reg: Map<Seq<char>, ProfileView>,
    preferred: Option<Seq<char>>,
    input: Seq<char>,
) -> (ProfileView, Option<ProfileView>) {
    if preferred is Some && reg.contains_key(preferred->0) {
        (reg[preferred->0], None)
    } else {
        let supervisor = if reg.contains_key("supervisor"@) {
            reg["supervisor"@]
        } else {
            default_supervisor()
        };
        let delegated = match specialist_key(lowercase_text(input)) {
            Some(k) => lookup(reg, k),
            None => None,
        };
        (supervisor, delegated)
    }
}

/// A request to the agent runtime.
#[derive(Debug)]
pub struct ExecuteRequest {
    pub tenant_id: u128,
    pub user_id: Option<u128>,
    pub input: String,
    pub preferred_agent: Option<String>,
}

/// Chooses the agent for `req` and the specialist it delegates to.
pub fn select_agent(registry: &AgentRegistry, req: &ExecuteRequest) -> (r: (
    AgentProfile,
    Option<AgentProfile>,
))
    ensures
        (r.0@, opt_profile_view(r.1)) == selection(
            registry@,
            opt_string_view(req.preferred_agent),
            req.input@,
        ),
{
    if let Some(pref) = &req.preferred_agent {
        if let Some(agent) = registry.get(pref.as_str()) {
            return (agent, None);
        }
    }
    let supervisor = match registry.get("supervisor") {
        Some(s) => s,
        None => {
            let caps = strings_from(&["routing"]);
            let p = AgentProfile {
                name: String::from_str("default-supervisor"),
                agent_type: AgentType::Supervisor,
                capabilities: caps,
            };
            assert(p@.2 =~= seq!["routing"@]);
            p
        },
    };
    let lower = to_lowercase_text(req.input.as_str());
    let key = specialist_for(lower.as_str());
    let delegated = match key {
        Some(k) => registry.get(k),
        None => None,
    };
    (supervisor, delegated)
}

/// The default registry: a supervisor and the workflow and tool specialists.
pub open spec fn default_registry_view() -> Map<Seq<char>, ProfileView> {
    Map::<Seq<char>, ProfileView>::empty().insert(
        "supervisor"@,
        ("supervisor"@, AgentType::Supervisor, seq!["routing"@, "delegation"@]),
    ).insert(
        "workflow-specialist"@,
        (
            "workflow-specialist"@,
            AgentType::Specialist,
            seq!["workflow_execution"@, "approval_state"@],
        ),
    ).insert(
        "tool-specialist"@,
        ("tool-specialist"@, AgentType::Specialist, seq!["tool_selection"@, "connector_calls"@]),
    )
}

/// The registry the runtime starts with.
pub fn default_registry() -> (r: AgentRegistry)
    ensures
        r@ == default_registry_view(),
{
    let mut reg = AgentRegistry::new();
    let caps = strings_from(&["routing", "delegation"]);
    assert(strings_view(caps@) =~= seq!["routing"@, "delegation"@]);
    reg.insert(
        String::from_str("supervisor"),
        AgentProfile {
            name: String::from_str("supervisor"),
            agent_type: AgentType::Supervisor,
            capabilities: caps,
        },
    );
    let caps = strings_from(&["workflow_execution", "approval_state"]);
    assert(strings_view(caps@) =~= seq!["workflow_execution"@, "approval_state"@]);
    reg.insert(
        String::from_str("workflow-specialist"),
        AgentProfile {
            name: String::from_str("workflow-specialist"),
            agent_type: AgentType::Specialist,
            capabilities: caps,
        },
    );
    let caps = strings_from(&["tool_selection", "connector_calls"]);
    assert(strings_view(caps@) =~= seq!["tool_selection"@, "connector_calls"@]);
    reg.insert(
        String::from_str("tool-specialist"),
        AgentProfile {
            name: String::from_str("tool-specialist"),
            agent_type: AgentType::Specialist,
            capabilities: caps,
        },
    );
    reg
}


/// One reported step of an execution.
#[derive(Debug)]
pub struct ExecutionStep {
    pub step: usize,
    pub actor: String,
    pub action: String,
    pub result: String,
}

/// A step as values: number, actor, action, result.
pub type StepView = (usize, Seq<char>, Seq<char>, Seq<char>);

impl View for ExecutionStep {
    type V = StepView;

    open spec fn view(&self) -> StepView {
        (self.step, self.actor@, self.action@, self.result@)
    }
}

/// What the runtime answers a request it handled.
#[derive(Debug)]
pub struct ExecuteResponse {
    pub trace_id: String,
    pub selected_agent: String,
    pub delegated_to: Option<String>,
    pub steps: Vec<ExecutionStep>,
    pub output: String,
}

/// The views of a list of steps.
pub open spec fn steps_view(s: Seq<ExecutionStep>) -> Seq<StepView> {
    s.map_values(|e: ExecutionStep| e@)
}

/// How the user appears in the plan: its UUID, or `anonymous`.
pub open spec fn user_text(user_id: Option<u128>) -> Seq<char> {
    match user_id {
        Some(u) => uuid_hyphenated_text(u),
        None => "anonymous"@,
    }
}

/// The result reported by the classification step.
pub open spec fn classification_text(tenant_id: u128, user_id: Option<u128>) -> Seq<char> {
    "tenant="@ + uuid_hyphenated_text(tenant_id) + " user="@ + user_text(user_id)
        + " input_class=general"@
}

/// The steps of a plan: classification by the chosen agent, then either
/// delegation to the specialist and its execution, or direct execution;
/// numbered from 1.
pub open spec fn planned_steps(
    selected: Seq<char>,
    delegated: Option<Seq<char>>,
    tenant_id: u128,
    user_id: Option<u128>,
) -> Seq<StepView> {
    let first = (1usize, selected, "intent_classification"@, classification_text(tenant_id, user_id));
    match delegated {
        Some(d) => seq![
            first,
            (2usize, selected, "delegate"@, "delegated_to="@ + d),
            (3usize, d, "specialist_execution"@, "specialist handled request"@),
        ],
        None => seq![first, (2usize, selected, "direct_execution"@, "handled without delegation"@)],
    }
}

/// The output text of a plan.
pub open spec fn output_text(selected: Seq<char>, delegated: Option<Seq<char>>, tenant_id: u128) -> Seq<
    char,
> {
    match delegated {
        Some(d) => "Request processed by supervisor '"@ + selected + "' with specialist '"@ + d
            + "' for tenant "@ + uuid_hyphenated_text(tenant_id) + "."@,
        None => "Request processed by agent '"@ + selected + "' for tenant "@
            + uuid_hyphenated_text(tenant_id) + "."@,
    }
}

/// The name of an optional profile.
pub open spec fn opt_name(p: Option<ProfileView>) -> Option<Seq<char>> {
    match p {
        Some(a) => Some(a.0),
        None => None,
    }
}

/// How the runtime answers `req` with the registry `reg`: an input that is
/// blank after trimming is a bad request; otherwise the chosen agent, the
/// specialist it delegates to, the planned steps and output, and a fresh
/// trace id.
pub open spec fn execution_answer(
    reg: Map<Seq<char>, ProfileView>,
    req: ExecuteRequest,
    r: Result<ExecuteResponse, ApiError>,
) -> bool {
    if trim(req.input@).len() == 0 {
        r == Err::<ExecuteResponse, ApiError>(ApiError::EmptyInput)
    } else {
        let (selected, delegated) = selection(reg, opt_string_view(req.preferred_agent), req.input@);
        &&& r matches Ok(resp)
        &&& resp.selected_agent@ == selected.0
        &&& opt_string_view(resp.delegated_to) == opt_name(delegated)
        &&& steps_view(resp.steps@) == planned_steps(
            selected.0,
            opt_name(delegated),
            req.tenant_id,
            req.user_id,
        )
        &&& resp.output@ == output_text(selected.0, opt_name(delegated), req.tenant_id)
        &&& exists|v: u128| resp.trace_id@ == trace_text(v) && is_v4(v)
    }
}

/// Handles a request: chooses the agents and reports the plan.
pub fn execute(registry: &AgentRegistry, req: &ExecuteRequest) -> (r: Result<
    ExecuteResponse,
    ApiError,
>)
    ensures
        execution_answer(registry@, *req, r),
{
    if trim_text(req.input.as_str()).unicode_len() == 0 {
        return Err(ApiError::EmptyInput);
    }
    let (selected, delegated) = select_agent(registry, req);
    let tenant = uuid_to_hyphenated(req.tenant_id);
    let user = match req.user_id {
        Some(u) => uuid_to_hyphenated(u),
        None => String::from_str("anonymous"),
    };
    let classification = String::from_str("tenant=").concat(tenant.as_str()).concat(" user=").concat(
        user.as_str(),
    ).concat(" input_class=general");
    let mut steps: Vec<ExecutionStep> = Vec::new();
    steps.push(
        ExecutionStep {
            step: 1,
            actor: selected.name.clone(),
            action: String::from_str("intent_classification"),
            result: classification,
        },
    );
    let output;
    match &delegated {
        Some(sub) => {
            steps.push(
                ExecutionStep {
                    step: 2,
                    actor: selected.name.clone(),
                    action: String::from_str("delegate"),
                    result: String::from_str("delegated_to=").concat(sub.name.as_str()),
                },
            );
            steps.push(
                ExecutionStep {
                    step: 3,
                    actor: sub.name.clone(),
                    action: String::from_str("specialist_execution"),
                    result: String::from_str("specialist handled request"),
                },
            );
            output =
            String::from_str("Request processed by supervisor '").concat(
                selected.name.as_str(),
            ).concat("' with specialist '").concat(sub.name.as_str()).concat(
                "' for tenant ",
            ).concat(tenant.as_str()).concat(".");
        },
        None => {
            steps.push(
                ExecutionStep {
                    step: 2,
                    actor: selected.name.clone(),
                    action: String::from_str("direct_execution"),
                    result: String::from_str("handled without delegation"),
                },
            );
            output =
            String::from_str("Request processed by agent '").concat(selected.name.as_str()).concat(
                "' for tenant ",
            ).concat(tenant.as_str()).concat(".");
        },
    }
    let delegated_to = match &delegated {
        Some(sub) => Some(sub.name.clone()),
        None => None,
    };
    let trace_id = new_trace_id();
    let resp = ExecuteResponse {
        trace_id,
        selected_agent: selected.name,
        delegated_to,
        steps,
        output,
    };
    assert(steps_view(resp.steps@) =~= planned_steps(
        selected@.0,
        opt_name(opt_profile_view(delegated)),
        req.tenant_id,
        req.user_id,
    ));
    Ok(resp)
}

/// A registered preferred agent handles the request alone.
pub proof fn lemma_preferred_agent_handles_alone(
    reg: Map<Seq<char>, ProfileView>,
    preferred: Seq<char>,
    input: Seq<char>,
)
    requires
        reg.contains_key(preferred),
    ensures
        selection(reg, Some(preferred), input) == (reg[preferred], None::<ProfileView>),
{
}

/// Without a usable preference the registered supervisor leads, and a
/// delegate is always a registered agent.
pub proof fn lemma_supervisor_leads(
    reg: Map<Seq<char>, ProfileView>,
    preferred: Option<Seq<char>>,
    input: Seq<char>,
)
    requires
        reg.contains_key("supervisor"@),
        !(preferred is Some && reg.contains_key(preferred->0)),
    ensures
        selection(reg, preferred, input).0 == reg["supervisor"@],
        selection(reg, preferred, input).1 matches Some(d) ==> reg.values().contains(d),
{
    let (sup, deleg) = selection(reg, preferred, input);
    if let Some(d) = deleg {
        let k = specialist_key(lowercase_text(input))->0;
        assert(reg.contains_key(k) && reg[k] == d);
    }
}

/// The steps of a plan are numbered 1, 2, ... in order; a delegated plan has
/// three steps, a direct one two; the first step is always the chosen
/// agent's classification.
pub proof fn lemma_plan_steps_numbered(
    selected: Seq<char>,
    delegated: Option<Seq<char>>,
    tenant_id: u128,
    user_id: Option<u128>,
)
    ensures
        ({
            let s = planned_steps(selected, delegated, tenant_id, user_id);
            &&& s.len() == (if delegated is Some { 3int } else { 2int })
            &&& forall|i: int| 0 <= i < s.len() ==> #[trigger] s[i].0 == i + 1
            &&& s[0].1 == selected
        }),
{
}

/// Who does what in a plan: the chosen agent classifies; with a delegate it
/// then delegates, naming the delegate, and the delegate alone executes;
/// without one the chosen agent executes directly.
pub proof fn lemma_plan_actors(
    selected: Seq<char>,
    delegated: Option<Seq<char>>,
    tenant_id: u128,
    user_id: Option<u128>,
)
    ensures
        ({
            let s = planned_steps(selected, delegated, tenant_id, user_id);
            &&& s[0].1 == selected && s[0].2 == "intent_classification"@
            &&& s[0].3 == "tenant="@ + uuid_hyphenated_text(tenant_id) + " user="@ + user_text(
                user_id,
            ) + " input_class=general"@
            &&& match delegated {
                Some(d) => {
                    &&& s[1].1 == selected && s[1].2 == "delegate"@
                    &&& s[1].3 == "delegated_to="@ + d
                    &&& s[2].1 == d && s[2].2 == "specialist_execution"@
                    &&& s[2].3 == "specialist handled request"@
                },
                None => {
                    &&& s[1].1 == selected && s[1].2 == "direct_execution"@
                    &&& s[1].3 == "handled without delegation"@
                },
            }
        }),
{
}

/// The keywords of a lower-cased request: `workflow` or `approval` call for
/// the workflow specialist; otherwise `tool` or `connector` call for the
/// tool specialist; a request with none of the four calls for no one.
pub proof fn lemma_keywords_choose_specialist(lower: Seq<char>)
    ensures
        seq_contains(lower, "workflow"@) ==> specialist_key(lower) == Some("workflow-specialist"@),
        seq_contains(lower, "approval"@) ==> specialist_key(lower) == Some("workflow-specialist"@),
        !seq_contains(lower, "workflow"@) && !seq_contains(lower, "approval"@) && seq_contains(
            lower,
            "tool"@,
        ) ==> specialist_key(lower) == Some("tool-specialist"@),
        !seq_contains(lower, "workflow"@) && !seq_contains(lower, "approval"@) && seq_contains(
            lower,
            "connector"@,
        ) ==> specialist_key(lower) == Some("tool-specialist"@),
        !seq_contains(lower, "workflow"@) && !seq_contains(lower, "approval"@) && !seq_contains(
            lower,
            "tool"@,
        ) && !seq_contains(lower, "connector"@) ==> specialist_key(lower) is None,
{
}

/// Without a usable preference, a request whose lower-cased text mentions
/// `tool` (and neither `workflow` nor `approval`) is delegated to the
/// registered tool specialist, and one that mentions `workflow` or
/// `approval` to the registered workflow specialist.
pub proof fn lemma_keyword_delegation(
    reg: Map<Seq<char>, ProfileView>,
    preferred: Option<Seq<char>>,
    input: Seq<char>,
)
    requires
        !(preferred is Some && reg.contains_key(preferred->0)),
    ensures
        ({
            let l = lowercase_text(input);
            (seq_contains(l, "workflow"@) || seq_contains(l, "approval"@)) ==> selection(
                reg,
                preferred,
                input,
            ).1 == lookup(reg, "workflow-specialist"@)
        }),
        ({
            let l = lowercase_text(input);
            !seq_contains(l, "workflow"@) && !seq_contains(l, "approval"@) && (seq_contains(
                l,
                "tool"@,
            ) || seq_contains(l, "connector"@)) ==> selection(reg, preferred, input).1 == lookup(
                reg,
                "tool-specialist"@,
            )
        }),
{
    lemma_keywords_choose_specialist(lowercase_text(input));
}

} // verus!
