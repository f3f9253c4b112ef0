use flow_mesh::access::ApiError;
use flow_mesh::agents::{
    default_registry, execute, select_agent, specialist_for, AgentProfile, AgentRegistry, AgentType,
    ExecuteRequest,
};
use uuid::Uuid;

fn request(input: &str, preferred: Option<&str>, user: Option<u128>) -> ExecuteRequest {
    ExecuteRequest {
        tenant_id: Uuid::new_v4().as_u128(),
        user_id: user,
        input: input.to_string(),
        preferred_agent: preferred.map(|p| p.to_string()),
    }
}

#[test]
fn default_registry_holds_three_agents() {
    let reg = default_registry();
    let sup = reg.get("supervisor").unwrap();
    assert_eq!(sup.name, "supervisor");
    assert_eq!(sup.agent_type, AgentType::Supervisor);
    assert_eq!(sup.capabilities, vec!["routing", "delegation"]);
    let wf = reg.get("workflow-specialist").unwrap();
    assert_eq!(wf.agent_type, AgentType::Specialist);
    assert_eq!(wf.capabilities, vec!["workflow_execution", "approval_state"]);
    let tool = reg.get("tool-specialist").unwrap();
    assert_eq!(tool.capabilities, vec!["tool_selection", "connector_calls"]);
    assert!(reg.get("nobody").is_none());
}

#[test]
fn preferred_agent_handles_alone() {
    let reg = default_registry();
    let (selected, delegated) =
        select_agent(&reg, &request("run the workflow", Some("tool-specialist"), None));
    assert_eq!(selected.name, "tool-specialist");
    assert!(delegated.is_none());
}

#[test]
fn unknown_preference_falls_back_to_routing() {
    let reg = default_registry();
    let (selected, delegated) =
        select_agent(&reg, &request("Please check the APPROVAL", Some("ghost"), None));
    assert_eq!(selected.name, "supervisor");
    assert_eq!(delegated.unwrap().name, "workflow-specialist");
}

#[test]
fn keywords_pick_the_specialist() {
    let reg = default_registry();
    let (_, d) = select_agent(&reg, &request("call the Connector", None, None));
    assert_eq!(d.unwrap().name, "tool-specialist");
    let (_, d) = select_agent(&reg, &request("workflow and tool", None, None));
    assert_eq!(d.unwrap().name, "workflow-specialist");
    let (s, d) = select_agent(&reg, &request("hello there", None, None));
    assert_eq!(s.name, "supervisor");
    assert!(d.is_none());
}

#[test]
fn empty_registry_uses_default_supervisor() {
    let reg = AgentRegistry::new();
    let (s, d) = select_agent(&reg, &request("workflow", None, None));
    assert_eq!(s.name, "default-supervisor");
    assert_eq!(s.agent_type, AgentType::Supervisor);
    assert_eq!(s.capabilities, vec!["routing"]);
    assert!(d.is_none());
}

#[test]
fn later_registration_replaces_earlier() {
    let mut reg = AgentRegistry::new();
    reg.insert(
        "supervisor".to_string(),
        AgentProfile { name: "old".to_string(), agent_type: AgentType::Supervisor, capabilities: vec![] },
    );
    reg.insert(
        "supervisor".to_string(),
        AgentProfile { name: "new".to_string(), agent_type: AgentType::Supervisor, capabilities: vec![] },
    );
    assert_eq!(reg.get("supervisor").unwrap().name, "new");
}

#[test]
fn blank_input_is_a_bad_request() {
    let reg = default_registry();
    assert_eq!(execute(&reg, &request("   \t\n", None, None)).unwrap_err(), ApiError::EmptyInput);
    assert_eq!(execute(&reg, &request("", None, None)).unwrap_err(), ApiError::EmptyInput);
}

#[test]
fn delegated_execution_reports_three_steps() {
    let reg = default_registry();
    let user = Uuid::new_v4();
    let req = request("start the workflow", None, Some(user.as_u128()));
    let tenant = Uuid::from_u128(req.tenant_id);
    let resp = execute(&reg, &req).unwrap();
    assert_eq!(resp.selected_agent, "supervisor");
    assert_eq!(resp.delegated_to.as_deref(), Some("workflow-specialist"));
    assert_eq!(resp.steps.len(), 3);
    for (i, s) in resp.steps.iter().enumerate() {
        assert_eq!(s.step, i + 1);
    }
    assert_eq!(resp.steps[0].actor, "supervisor");
    assert_eq!(resp.steps[0].action, "intent_classification");
    assert_eq!(
        resp.steps[0].result,
        format!("tenant={} user={} input_class=general", tenant, user)
    );
    assert_eq!(resp.steps[1].action, "delegate");
    assert_eq!(resp.steps[1].result, "delegated_to=workflow-specialist");
    assert_eq!(resp.steps[2].actor, "workflow-specialist");
    assert_eq!(resp.steps[2].action, "specialist_execution");
    assert_eq!(resp.steps[2].result, "specialist handled request");
    assert_eq!(
        resp.output,
        format!(
            "Request processed by supervisor 'supervisor' with specialist 'workflow-specialist' for tenant {}.",
            tenant
        )
    );
    assert!(resp.trace_id.starts_with("tr_"));
    assert_eq!(resp.trace_id.len(), 35);
}

#[test]
fn direct_execution_reports_two_steps() {
    let reg = default_registry();
    let req = request("summarize", None, None);
    let tenant = Uuid::from_u128(req.tenant_id);
    let resp = execute(&reg, &req).unwrap();
    assert_eq!(resp.delegated_to, None);
    assert_eq!(resp.steps.len(), 2);
    assert_eq!(resp.steps[0].result, format!("tenant={} user=anonymous input_class=general", tenant));
    assert_eq!(resp.steps[1].action, "direct_execution");
    assert_eq!(resp.steps[1].result, "handled without delegation");
    assert_eq!(
        resp.output,
        format!("Request processed by agent 'supervisor' for tenant {}.", tenant)
    );
}

#[test]
fn specialist_keys_follow_keywords() {
    assert_eq!(specialist_for("approval needed"), Some("workflow-specialist"));
    assert_eq!(specialist_for("use a connector"), Some("tool-specialist"));
    assert_eq!(specialist_for("tool for the workflow"), Some("workflow-specialist"));
    assert_eq!(specialist_for("WORKFLOW"), None);
    assert_eq!(specialist_for("hello"), None);
}
