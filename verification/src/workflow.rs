//! Workflow runs: their lifecycle status, the in-memory run store that the
//! gateway keeps when no database is configured, approval decisions, and
//! the checks that turn database rows into runs.
use crate::access::ApiError;
use crate::ids::{is_v4, new_trace_id, now_rfc3339, random_uuid, rfc3339_utc_text, trace_text};
use crate::text::str_eq;
use std::collections::HashMap;
use vstd::prelude::*;
use vstd::string::*;

verus! {

broadcast use vstd::std_specs::hash::group_hash_axioms;

/// Lifecycle status of a workflow run.
#[derive(Debug, Clone, Copy, PartialEq, Eq, Structural)]
pub enum WorkflowRunStatus {
    Running,
    WaitingApproval,
    Succeeded,
    Failed,
}

/// The text under which each status is stored.
pub open spec fn status_text(s: WorkflowRunStatus) -> Seq<char> {
    match s {
        WorkflowRunStatus::Running => "running"@,
        WorkflowRunStatus::WaitingApproval => "waiting_approval"@,
        WorkflowRunStatus::Succeeded => "succeeded"@,
        WorkflowRunStatus::Failed => "failed"@,
    }
}

/// The status that a stored text names, if any.
pub open spec fn status_from_text(t: Seq<char>) -> Option<WorkflowRunStatus> {
    if t == "running"@ {
        Some(WorkflowRunStatus::Running)
    } else if t == "waiting_approval"@ {
        Some(WorkflowRunStatus::WaitingApproval)
    } else if t == "succeeded"@ {
        Some(WorkflowRunStatus::Succeeded)
    } else if t == "failed"@ {
        Some(WorkflowRunStatus::Failed)
    } else {
        None
    }
}

impl WorkflowRunStatus {
    /// A decided run: approved (`Succeeded`) or rejected (`Failed`).
    pub open spec fn is_terminal(self) -> bool {
        self is Succeeded || self is Failed
    }

    /// The text under which this status is stored.
    pub fn as_db_str(&self) -> (r: &'static str)
        ensures
            r@ == status_text(*self),
    {
        match self {
            WorkflowRunStatus::Running => "running",
            WorkflowRunStatus::WaitingApproval => "waiting_approval",
            WorkflowRunStatus::Succeeded => "succeeded",
            WorkflowRunStatus::Failed => "failed",
        }
    }

    /// The status stored under `value`, if it names one.
    pub fn from_db_str(value: &str) -> (r: Option<Self>)
        ensures
            r == status_from_text(value@),
    {
        if str_eq(value, "running") {
            Some(WorkflowRunStatus::Running)
        } else if str_eq(value, "waiting_approval") {
            Some(WorkflowRunStatus::WaitingApproval)
        } else if str_eq(value, "succeeded") {
            Some(WorkflowRunStatus::Succeeded)
        } else if str_eq(value, "failed") {
            Some(WorkflowRunStatus::Failed)
        } else {
            None
        }
    }
}

/// One run of a workflow, owned by a tenant.
#[derive(Debug)]
pub struct WorkflowRun {
    pub instance_id: u128,
    pub tenant_id: u128,
    pub workflow_id: u128,
    pub status: WorkflowRunStatus,
    pub current_node: Option<String>,
    pub trace_id: String,
    pub started_at: String,
    pub completed_at: Option<String>,
}

fn copy_text(s: &Option<String>) -> (r: Option<String>)
    ensures
        r == *s,
{
    match s {
        Some(t) => Some(t.clone()),
        None => None,
    }
}

impl WorkflowRun {
    /// A field-by-field copy of the run.
    pub fn duplicate(&self) -> (r: Self)
        ensures
            r == *self,
    {
        WorkflowRun {
            instance_id: self.instance_id,
            tenant_id: self.tenant_id,
            workflow_id: self.workflow_id,
            status: self.status,
            current_node: copy_text(&self.current_node),
            trace_id: self.trace_id.clone(),
            started_at: self.started_at.clone(),
            completed_at: copy_text(&self.completed_at),
        }
    }
}

/// A freshly started run: running, at node `start`, not completed, with a
/// new trace id; its instance id is a random version-4 UUID and its start
/// time the clock's, in RFC 3339 form.
pub open spec fn is_fresh_run(r: WorkflowRun, tenant_id: u128, workflow_id: u128) -> bool {
    &&& is_v4(r.instance_id)
    &&& rfc3339_utc_text(r.started_at@)
    &&& r.tenant_id == tenant_id
    &&& r.workflow_id == workflow_id
    &&& r.status == WorkflowRunStatus::Running
    &&& r.current_node matches Some(n) && n@ == "start"@
    &&& r.completed_at is None
    &&& exists|v: u128| r.trace_id@ == trace_text(v) && is_v4(v)
}

/// Starts a run of `workflow_id` for `tenant_id`.
pub fn new_workflow_run(tenant_id: u128, workflow_id: u128) -> (r: WorkflowRun)
    ensures
        is_fresh_run(r, tenant_id, workflow_id),
{
    let instance_id = random_uuid();
    let trace_id = new_trace_id();
    WorkflowRun {
        instance_id,
        tenant_id,
        workflow_id,
        status: WorkflowRunStatus::Running,
        current_node: Some(String::from_str("start")),
        trace_id,
        started_at: now_rfc3339(),
        completed_at: None,
    }
}

/// Every run is stored under its own instance id.
pub open spec fn keyed_by_instance(m: Map<u128, WorkflowRun>) -> bool {
    forall|k: u128| #[trigger] m.contains_key(k) ==> m[k].instance_id == k
}

/// What a tenant is answered when it asks for a run that was or was not
/// found: not found, forbidden when the run is another tenant's, else the run.
pub open spec fn instance_access(found: Option<WorkflowRun>, tenant_id: u128) -> Result<
    WorkflowRun,
    ApiError,
> {
    match found {
        None => Err(ApiError::NotFound),
        Some(run) => if run.tenant_id != tenant_id {
            Err(ApiError::Forbidden)
        } else {
            Ok(run)
        },
    }
}

/// Hands `tenant_id` the run that was found, if it is theirs.
pub fn check_instance_access(found: Option<WorkflowRun>, tenant_id: u128) -> (r: Result<
    WorkflowRun,
    ApiError,
>)
    ensures
        r == instance_access(found, tenant_id),
{
    match found {
        None => Err(ApiError::NotFound),
        Some(run) => {
            if run.tenant_id != tenant_id {
                Err(ApiError::Forbidden)
            } else {
                Ok(run)
            }
        },
    }
}

/// The status that an approval decision asks for.
pub open spec fn decision_status(decision: Seq<char>) -> Option<WorkflowRunStatus> {
    if decision == "approve"@ {
        Some(WorkflowRunStatus::Succeeded)
    } else if decision == "reject"@ {
        Some(WorkflowRunStatus::Failed)
    } else {
        None
    }
}

/// Reads an approval decision: `approve` or `reject`; anything else is a bad
/// request.
pub fn parse_decision(decision: &str) -> (r: Result<WorkflowRunStatus, ApiError>)
    ensures
        match decision_status(decision@) {
            Some(s) => r == Ok::<WorkflowRunStatus, ApiError>(s),
            None => r == Err::<WorkflowRunStatus, ApiError>(ApiError::InvalidDecision),
        },
{
    if str_eq(decision, "approve") {
        Ok(WorkflowRunStatus::Succeeded)
    } else if str_eq(decision, "reject") {
        Ok(WorkflowRunStatus::Failed)
    } else {
        Err(ApiError::InvalidDecision)
    }
}

/// How a decision for `desired` on run `id` by `tenant_id` relates the store
/// before (`old`) and after (`new`) to the answer `r`:
/// unknown run: not found; another tenant's run: forbidden; a run already
/// at `desired`: answered with the run, unchanged; a decided run: conflict;
/// otherwise the run moves to `desired`, leaves its node, gets a completion
/// time (the clock's, in RFC 3339 form), and is answered.
pub open spec fn decision_applied(
    old: Map<u128, WorkflowRun>,
    new: Map<u128, WorkflowRun>,
    id: u128,
    tenant_id: u128,
    desired: WorkflowRunStatus,
    r: Result<WorkflowRun, ApiError>,
) -> bool {
    if !old.contains_key(id) {
        r == Err::<WorkflowRun, ApiError>(ApiError::NotFound) && new == old
    } else {
        let run = old[id];
        if run.tenant_id != tenant_id {
            r == Err::<WorkflowRun, ApiError>(ApiError::Forbidden) && new == old
        } else if run.status == desired {
            r == Ok::<WorkflowRun, ApiError>(run) && new == old
        } else if run.status.is_terminal() {
            r == Err::<WorkflowRun, ApiError>(ApiError::Conflict) && new == old
        } else {
            &&& r matches Ok(updated)
            &&& updated.instance_id == run.instance_id
            &&& updated.tenant_id == run.tenant_id
            &&& updated.workflow_id == run.workflow_id
            &&& updated.status == desired
            &&& updated.current_node is None
            &&& updated.trace_id == run.trace_id
            &&& updated.started_at == run.started_at
            &&& updated.completed_at matches Some(t) && rfc3339_utc_text(t@)
            &&& new == old.insert(id, updated)
        }
    }
}

/// The run stored under `id`, if any.
pub open spec fn stored_run(m: Map<u128, WorkflowRun>, id: u128) -> Option<WorkflowRun> {
    if m.contains_key(id) {
        Some(m[id])
    } else {
        None
    }
}

/// The runs kept in memory, by instance id.
pub struct RunStore {
    runs: HashMap<u128, WorkflowRun>,
}

impl View for RunStore {
    type V = Map<u128, WorkflowRun>;

    closed spec fn view(&self) -> Map<u128, WorkflowRun> {
        self.runs@
    }
}

impl RunStore {
    /// Every run is stored under its own instance id.
    pub open spec fn wf(&self) -> bool {
        keyed_by_instance(self@)
    }

    /// An empty store.
    pub fn new() -> (r: Self)
        ensures
            r@ == Map::<u128, WorkflowRun>::empty(),
            r.wf(),
    {
        RunStore { runs: HashMap::new() }
    }

    /// Stores `run` under its instance id, replacing any run stored there.
    pub fn persist_run(&mut self, run: &WorkflowRun)
        requires
            old(self).wf(),
        ensures
            final(self)@ == old(self)@.insert(run.instance_id, *run),
            final(self).wf(),
    {
        self.runs.insert(run.instance_id, run.duplicate());
    }

    /// The run stored under `instance_id`, if any.
    pub fn fetch_workflow_run(&self, instance_id: u128) -> (r: Option<WorkflowRun>)
        ensures
            r == stored_run(self@, instance_id),
    {
        match self.runs.get(&instance_id) {
            Some(run) => Some(run.duplicate()),
            None => None,
        }
    }

    /// Applies the decision `desired` of `tenant_id` to run `approval_id`.
    pub fn apply_approval_decision(
        &mut self,
        approval_id: u128,
        tenant_id: u128,
        desired: WorkflowRunStatus,
    ) -> (r: Result<WorkflowRun, ApiError>)
        requires
            old(self).wf(),
        ensures
            decision_applied(old(self)@, final(self)@, approval_id, tenant_id, desired, r),
            final(self).wf(),
    {
        let updated = match self.runs.get(&approval_id) {
            None => return Err(ApiError::NotFound),
            Some(run) => {
                if run.tenant_id != tenant_id {
                    return Err(ApiError::Forbidden);
                }
                if run.status == desired {
                    return Ok(run.duplicate());
                }
                if run.status == WorkflowRunStatus::Succeeded || run.status
                    == WorkflowRunStatus::Failed {
                    return Err(ApiError::Conflict);
                }
                let mut updated = run.duplicate();
                updated.status = desired;
                updated.current_node = None;
                updated.completed_at = Some(now_rfc3339());
                updated
            },
        };
        self.runs.insert(approval_id, updated.duplicate());
        Ok(updated)
    }
}

/// The run that a database row holds, when its stored status is known.
pub open spec fn row_run(
    instance_id: u128,
    tenant_id: u128,
    workflow_id: u128,
    status_raw: Seq<char>,
    trace_id: String,
    started_at: String,
    completed_at: Option<String>,
    r: Result<WorkflowRun, ApiError>,
) -> bool {
    match status_from_text(status_raw) {
        None => r == Err::<WorkflowRun, ApiError>(ApiError::Internal),
        Some(status) => r == Ok::<WorkflowRun, ApiError>(
            WorkflowRun {
                instance_id,
                tenant_id,
                workflow_id,
                status,
                current_node: None,
                trace_id,
                started_at,
                completed_at,
            },
        ),
    }
}

/// Builds a run from the columns of a `workflow_runs` row; a stored status
/// that names no status is an internal error.
pub fn run_from_row(
    instance_id: u128,
    tenant_id: u128,
    workflow_id: u128,
    status_raw: &str,
    trace_id: String,
    started_at: String,
    completed_at: Option<String>,
) -> (r: Result<WorkflowRun, ApiError>)
    ensures
        row_run(
            instance_id,
            tenant_id,
            workflow_id,
            status_raw@,
            trace_id,
            started_at,
            completed_at,
            r,
        ),
{
    match WorkflowRunStatus::from_db_str(status_raw) {
        None => Err(ApiError::Internal),
        Some(status) => Ok(
            WorkflowRun {
                instance_id,
                tenant_id,
                workflow_id,
                status,
                current_node: None,
                trace_id,
                started_at,
                completed_at,
            },
        ),
    }
}

/// After a database update for a decision changed no row: with no run of the
/// tenant under that id, not found; a run already at the desired status is
/// fetched again (`Ok`); any other status is a conflict.
pub fn check_unapplied_decision(existing_status: Option<&str>, desired: WorkflowRunStatus) -> (r:
    Result<(), ApiError>)
    ensures
        match existing_status {
            None => r == Err::<(), ApiError>(ApiError::NotFound),
            Some(s) => if s@ == status_text(desired) {
                r == Ok::<(), ApiError>(())
            } else {
                r == Err::<(), ApiError>(ApiError::Conflict)
            },
        },
{
    match existing_status {
        None => Err(ApiError::NotFound),
        Some(s) => {
            if str_eq(s, desired.as_db_str()) {
                Ok(())
            } else {
                Err(ApiError::Conflict)
            }
        },
    }
}

/// Every status reads back from the text it is stored under, and a stored
/// text reads as a status only when it is that status's own text.
pub proof fn lemma_status_text_round_trip(s: WorkflowRunStatus, t: Seq<char>)
    ensures
        status_from_text(status_text(s)) == Some(s),
        status_from_text(t) == Some(s) ==> t == status_text(s),
{
    reveal_strlit("running");
    reveal_strlit("waiting_approval");
    reveal_strlit("succeeded");
    reveal_strlit("failed");
    assert("running"@.len() == 7);
    assert("waiting_approval"@.len() == 16);
    assert("succeeded"@.len() == 9);
    assert("failed"@.len() == 6);
}

/// Each status is stored under its own snake-case name, and each name reads
/// back as that status; any other text names no status.
pub proof fn lemma_status_names(t: Seq<char>)
    ensures
        status_text(WorkflowRunStatus::Running) == "running"@,
        status_text(WorkflowRunStatus::WaitingApproval) == "waiting_approval"@,
        status_text(WorkflowRunStatus::Succeeded) == "succeeded"@,
        status_text(WorkflowRunStatus::Failed) == "failed"@,
        status_from_text("running"@) == Some(WorkflowRunStatus::Running),
        status_from_text("waiting_approval"@) == Some(WorkflowRunStatus::WaitingApproval),
        status_from_text("succeeded"@) == Some(WorkflowRunStatus::Succeeded),
        status_from_text("failed"@) == Some(WorkflowRunStatus::Failed),
        t != "running"@ && t != "waiting_approval"@ && t != "succeeded"@ && t != "failed"@
            ==> status_from_text(t) is None,
{
    lemma_status_text_round_trip(WorkflowRunStatus::Running, t);
    lemma_status_text_round_trip(WorkflowRunStatus::WaitingApproval, t);
    lemma_status_text_round_trip(WorkflowRunStatus::Succeeded, t);
    lemma_status_text_round_trip(WorkflowRunStatus::Failed, t);
}

/// `approve` asks for success and `reject` for failure; any other word is
/// no decision.
pub proof fn lemma_decision_words(d: Seq<char>)
    ensures
        decision_status("approve"@) == Some(WorkflowRunStatus::Succeeded),
        decision_status("reject"@) == Some(WorkflowRunStatus::Failed),
        d != "approve"@ && d != "reject"@ ==> decision_status(d) is None,
{
    reveal_strlit("approve");
    reveal_strlit("reject");
    assert("approve"@.len() == 7);
    assert("reject"@.len() == 6);
}

/// A decision on a run the store does not hold is not found and changes
/// nothing.
pub proof fn lemma_unknown_run_not_found(
    old: Map<u128, WorkflowRun>,
    new: Map<u128, WorkflowRun>,
    id: u128,
    tenant_id: u128,
    desired: WorkflowRunStatus,
    r: Result<WorkflowRun, ApiError>,
)
    requires
        decision_applied(old, new, id, tenant_id, desired, r),
        !old.contains_key(id),
    ensures
        r == Err::<WorkflowRun, ApiError>(ApiError::NotFound),
        new == old,
{
}

/// Only approved and rejected runs are decided; running and waiting runs
/// are open.
pub proof fn lemma_decided_statuses()
    ensures
        WorkflowRunStatus::Succeeded.is_terminal(),
        WorkflowRunStatus::Failed.is_terminal(),
        !WorkflowRunStatus::Running.is_terminal(),
        !WorkflowRunStatus::WaitingApproval.is_terminal(),
{
}

/// A decision by the run's own tenant on a run that is still open (running
/// or waiting for approval) always succeeds: the run moves to the decided
/// status, leaves its node, gets a completion time, and is what the store
/// then holds.
pub proof fn lemma_open_run_decision_succeeds(
    old: Map<u128, WorkflowRun>,
    new: Map<u128, WorkflowRun>,
    id: u128,
    tenant_id: u128,
    desired: WorkflowRunStatus,
    r: Result<WorkflowRun, ApiError>,
)
    requires
        keyed_by_instance(old),
        decision_applied(old, new, id, tenant_id, desired, r),
        old.contains_key(id),
        old[id].tenant_id == tenant_id,
        old[id].status == WorkflowRunStatus::Running || old[id].status
            == WorkflowRunStatus::WaitingApproval,
    ensures
        r matches Ok(u) && u.status == desired && u.instance_id == id && u.tenant_id == tenant_id
            && new.contains_key(id) && new[id] == u && (old[id].status != desired
            ==> u.current_node is None && u.completed_at is Some),
{
}

/// A decision that was answered with a run, made again, is answered with
/// the same run and changes nothing.
pub proof fn lemma_decision_idempotent(
    m0: Map<u128, WorkflowRun>,
    m1: Map<u128, WorkflowRun>,
    m2: Map<u128, WorkflowRun>,
    id: u128,
    tenant_id: u128,
    desired: WorkflowRunStatus,
    r1: Result<WorkflowRun, ApiError>,
    r2: Result<WorkflowRun, ApiError>,
)
    requires
        decision_applied(m0, m1, id, tenant_id, desired, r1),
        r1 is Ok,
        decision_applied(m1, m2, id, tenant_id, desired, r2),
    ensures
        r2 == r1,
        m2 == m1,
{
}

/// Once a run was approved or rejected, the other decision conflicts and
/// changes nothing.
pub proof fn lemma_opposite_decision_conflicts(
    m0: Map<u128, WorkflowRun>,
    m1: Map<u128, WorkflowRun>,
    m2: Map<u128, WorkflowRun>,
    id: u128,
    tenant_id: u128,
    first: WorkflowRunStatus,
    second: WorkflowRunStatus,
    r1: Result<WorkflowRun, ApiError>,
    r2: Result<WorkflowRun, ApiError>,
)
    requires
        first.is_terminal(),
        second != first,
        decision_applied(m0, m1, id, tenant_id, first, r1),
        r1 is Ok,
        decision_applied(m1, m2, id, tenant_id, second, r2),
    ensures
        r2 == Err::<WorkflowRun, ApiError>(ApiError::Conflict),
        m2 == m1,
{
}

/// A decided run keeps its status whatever is decided on it later.
pub proof fn lemma_decided_run_is_final(
    m0: Map<u128, WorkflowRun>,
    m1: Map<u128, WorkflowRun>,
    id: u128,
    tenant_id: u128,
    desired: WorkflowRunStatus,
    r: Result<WorkflowRun, ApiError>,
)
    requires
        m0.contains_key(id),
        m0[id].status.is_terminal(),
        decision_applied(m0, m1, id, tenant_id, desired, r),
    ensures
        m1 == m0,
{
}

/// A tenant's decision on another tenant's run is forbidden and changes
/// nothing; a decision never touches any run but its own.
pub proof fn lemma_decision_is_tenant_isolated(
    m0: Map<u128, WorkflowRun>,
    m1: Map<u128, WorkflowRun>,
    id: u128,
    tenant_id: u128,
    desired: WorkflowRunStatus,
    r: Result<WorkflowRun, ApiError>,
    other: u128,
)
    requires
        decision_applied(m0, m1, id, tenant_id, desired, r),
    ensures
        m0.contains_key(id) && m0[id].tenant_id != tenant_id ==> r == Err::<WorkflowRun, ApiError>(
            ApiError::Forbidden,
        ) && m1 == m0,
        other != id ==> stored_run(m1, other) == stored_run(m0, other),
{
}

/// A stored run is read back by its own tenant and refused to any other.
pub proof fn lemma_persisted_run_is_read_back(
    m: Map<u128, WorkflowRun>,
    run: WorkflowRun,
    tenant_id: u128,
)
    ensures
        instance_access(stored_run(m.insert(run.instance_id, run), run.instance_id), tenant_id)
            == (if run.tenant_id == tenant_id {
            Ok::<WorkflowRun, ApiError>(run)
        } else {
            Err::<WorkflowRun, ApiError>(ApiError::Forbidden)
        }),
{
}

} // verus!
