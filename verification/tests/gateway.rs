use flow_mesh::access::{
    error_envelope, authorize_approval_decision, authorize_tenant_listing, authorize_workflow_run,
    extract_context, is_public_path, parse_roles, ApiError, ContextSource,
};
use flow_mesh::requests::{decide_approval, get_workflow_instance, start_workflow_run};
use flow_mesh::tenant::{PlatformError, TenantContext};
use flow_mesh::workflow::{
    check_instance_access, check_unapplied_decision, new_workflow_run, parse_decision,
    run_from_row, RunStore, WorkflowRun, WorkflowRunStatus,
};
use uuid::Uuid;

fn ctx_with_roles(tenant: u128, roles: &[&str]) -> TenantContext {
    TenantContext {
        tenant_id: tenant,
        workspace_id: None,
        user_id: None,
        roles: roles.iter().map(|r| r.to_string()).collect(),
    }
}

fn headers_context(r: Result<ContextSource, ApiError>) -> TenantContext {
    match r.expect("context should parse") {
        ContextSource::Headers(ctx) => ctx,
        ContextSource::BearerToken(_) => panic!("expected a header context"),
    }
}

fn stored_run(id: u128, tenant: u128, status: WorkflowRunStatus) -> WorkflowRun {
    WorkflowRun {
        instance_id: id,
        tenant_id: tenant,
        workflow_id: Uuid::new_v4().as_u128(),
        status,
        current_node: if status == WorkflowRunStatus::WaitingApproval {
            Some("approve_step".to_string())
        } else {
            None
        },
        trace_id: "tr_test".to_string(),
        started_at: "2026-03-11T00:00:00+00:00".to_string(),
        completed_at: None,
    }
}

#[test]
fn public_path_predicate_works() {
    assert!(is_public_path("/"));
    assert!(is_public_path("/health"));
    assert!(!is_public_path("/v1/runtime/complete"));
}

#[test]
fn extract_context_from_headers() {
    let tenant = Uuid::new_v4();
    let tenant_text = tenant.to_string();
    let ctx = headers_context(extract_context(
        None,
        None,
        Some(tenant_text.as_str()),
        Some("tenant_admin,builder"),
    ));
    assert_eq!(ctx.tenant_id, tenant.as_u128());
    assert!(ctx.has_role("tenant_admin"));
    assert!(ctx.has_role("builder"));
}

#[test]
fn extract_context_requires_tenant() {
    let result = extract_context(None, None, None, None);
    assert!(result.is_err());
}

#[test]
fn run_workflow_requires_builder_or_admin_role() {
    let tenant = Uuid::new_v4().as_u128();
    let ctx = ctx_with_roles(tenant, &[]);
    assert_eq!(authorize_workflow_run(&ctx), Err(ApiError::Forbidden));
    assert_eq!(ApiError::Forbidden.status_code(), 403);
    assert_eq!(authorize_workflow_run(&ctx_with_roles(tenant, &["builder"])), Ok(()));
    assert_eq!(authorize_workflow_run(&ctx_with_roles(tenant, &["tenant_admin"])), Ok(()));
    assert_eq!(
        authorize_workflow_run(&ctx_with_roles(tenant, &["approver"])),
        Err(ApiError::Forbidden)
    );
}

#[test]
fn approval_requires_approver_or_admin_role() {
    let tenant = Uuid::new_v4().as_u128();
    let ctx = ctx_with_roles(tenant, &["builder"]);
    assert_eq!(authorize_approval_decision(&ctx), Err(ApiError::Forbidden));
    assert_eq!(authorize_approval_decision(&ctx_with_roles(tenant, &["approver"])), Ok(()));
    assert_eq!(authorize_approval_decision(&ctx_with_roles(tenant, &["tenant_admin"])), Ok(()));
}

#[test]
fn workflow_instance_is_tenant_isolated() {
    let tenant_a = Uuid::new_v4().as_u128();
    let tenant_b = Uuid::new_v4().as_u128();
    let workflow_id = Uuid::new_v4().as_u128();
    let mut store = RunStore::new();
    let run = new_workflow_run(tenant_a, workflow_id);
    store.persist_run(&run);
    let found = store.fetch_workflow_run(run.instance_id);
    assert_eq!(check_instance_access(found, tenant_b).unwrap_err(), ApiError::Forbidden);
    let found = store.fetch_workflow_run(run.instance_id);
    let own = check_instance_access(found, tenant_a).expect("own run");
    assert_eq!(own.instance_id, run.instance_id);
}

#[test]
fn approval_decision_is_idempotent_for_same_choice() {
    let tenant = Uuid::new_v4().as_u128();
    let approval_id = Uuid::new_v4().as_u128();
    let mut store = RunStore::new();
    store.persist_run(&stored_run(approval_id, tenant, WorkflowRunStatus::WaitingApproval));
    let desired = parse_decision("approve").unwrap();
    let first = store.apply_approval_decision(approval_id, tenant, desired).expect("first");
    let second = store.apply_approval_decision(approval_id, tenant, desired).expect("second");
    assert_eq!(first.status, WorkflowRunStatus::Succeeded);
    assert_eq!(second.status, WorkflowRunStatus::Succeeded);
    assert_eq!(first.completed_at, second.completed_at);
    assert!(first.completed_at.is_some());
    assert_eq!(first.current_node, None);
}

#[test]
fn approval_reject_after_approve_conflicts() {
    let tenant = Uuid::new_v4().as_u128();
    let approval_id = Uuid::new_v4().as_u128();
    let mut store = RunStore::new();
    let mut run = stored_run(approval_id, tenant, WorkflowRunStatus::Succeeded);
    run.completed_at = Some("2026-03-11T00:00:01+00:00".to_string());
    store.persist_run(&run);
    let desired = parse_decision("reject").unwrap();
    let result = store.apply_approval_decision(approval_id, tenant, desired);
    assert_eq!(result.unwrap_err().status_code(), 409);
    let kept = store.fetch_workflow_run(approval_id).unwrap();
    assert_eq!(kept.status, WorkflowRunStatus::Succeeded);
}

#[test]
fn decision_on_unknown_or_foreign_run_is_refused() {
    let tenant = Uuid::new_v4().as_u128();
    let other = Uuid::new_v4().as_u128();
    let id = Uuid::new_v4().as_u128();
    let mut store = RunStore::new();
    assert_eq!(
        store.apply_approval_decision(id, tenant, WorkflowRunStatus::Failed).unwrap_err(),
        ApiError::NotFound
    );
    store.persist_run(&stored_run(id, tenant, WorkflowRunStatus::Running));
    assert_eq!(
        store.apply_approval_decision(id, other, WorkflowRunStatus::Failed).unwrap_err(),
        ApiError::Forbidden
    );
    assert_eq!(store.fetch_workflow_run(id).unwrap().status, WorkflowRunStatus::Running);
    let rejected = store.apply_approval_decision(id, tenant, WorkflowRunStatus::Failed).unwrap();
    assert_eq!(rejected.status, WorkflowRunStatus::Failed);
    assert_eq!(rejected.trace_id, "tr_test");
}

#[test]
fn missing_run_is_not_found() {
    let store = RunStore::new();
    let found = store.fetch_workflow_run(42);
    assert!(found.is_none());
    assert_eq!(check_instance_access(found, 1).unwrap_err(), ApiError::NotFound);
}

#[test]
fn status_texts_round_trip() {
    for s in [
        WorkflowRunStatus::Running,
        WorkflowRunStatus::WaitingApproval,
        WorkflowRunStatus::Succeeded,
        WorkflowRunStatus::Failed,
    ] {
        assert_eq!(WorkflowRunStatus::from_db_str(s.as_db_str()), Some(s));
    }
    assert_eq!(WorkflowRunStatus::WaitingApproval.as_db_str(), "waiting_approval");
    assert_eq!(WorkflowRunStatus::from_db_str("Running"), None);
    assert_eq!(WorkflowRunStatus::from_db_str(""), None);
}

#[test]
fn decisions_parse() {
    assert_eq!(parse_decision("approve"), Ok(WorkflowRunStatus::Succeeded));
    assert_eq!(parse_decision("reject"), Ok(WorkflowRunStatus::Failed));
    assert_eq!(parse_decision("Approve"), Err(ApiError::InvalidDecision));
    assert_eq!(ApiError::InvalidDecision.status_code(), 400);
}

#[test]
fn new_run_starts_running() {
    let tenant = Uuid::new_v4().as_u128();
    let wf = Uuid::new_v4().as_u128();
    let run = new_workflow_run(tenant, wf);
    assert_eq!(run.tenant_id, tenant);
    assert_eq!(run.workflow_id, wf);
    assert_eq!(run.status, WorkflowRunStatus::Running);
    assert_eq!(run.current_node.as_deref(), Some("start"));
    assert!(run.completed_at.is_none());
    assert!(run.trace_id.starts_with("tr_"));
    assert_eq!(run.trace_id.len(), 35);
    assert!(run.trace_id[3..].chars().all(|c| c.is_ascii_hexdigit() && !c.is_ascii_uppercase()));
    let id = Uuid::from_u128(run.instance_id);
    assert_eq!(id.get_version_num(), 4);
    assert!(!run.started_at.is_empty());
}

#[test]
fn database_rows_become_runs() {
    let run = run_from_row(1, 2, 3, "waiting_approval", "tr_x".to_string(), "t0".to_string(), None)
        .unwrap();
    assert_eq!(run.status, WorkflowRunStatus::WaitingApproval);
    assert_eq!(run.current_node, None);
    assert_eq!(run.instance_id, 1);
    assert_eq!(
        run_from_row(1, 2, 3, "paused", "tr_x".to_string(), "t0".to_string(), None).unwrap_err(),
        ApiError::Internal
    );
    assert_eq!(ApiError::Internal.status_code(), 500);
}

#[test]
fn unapplied_decisions_resolve() {
    assert_eq!(
        check_unapplied_decision(None, WorkflowRunStatus::Succeeded),
        Err(ApiError::NotFound)
    );
    assert_eq!(check_unapplied_decision(Some("succeeded"), WorkflowRunStatus::Succeeded), Ok(()));
    assert_eq!(
        check_unapplied_decision(Some("failed"), WorkflowRunStatus::Succeeded),
        Err(ApiError::Conflict)
    );
}

#[test]
fn tenant_listing_is_for_admins() {
    assert_eq!(authorize_tenant_listing(&ctx_with_roles(1, &["builder"])), Err(ApiError::Forbidden));
    assert_eq!(authorize_tenant_listing(&ctx_with_roles(1, &["tenant_admin"])), Ok(()));
}

#[test]
fn roles_are_split_trimmed_and_nonempty() {
    assert_eq!(parse_roles(" tenant_admin , ,builder,"), vec!["tenant_admin", "builder"]);
    assert!(parse_roles("").is_empty());
    assert!(parse_roles(" , ").is_empty());
    assert_eq!(parse_roles("a\u{3000}"), vec!["a"]);
}

#[test]
fn header_context_without_roles_or_with_bad_tenant() {
    let tenant = Uuid::new_v4();
    let text = tenant.to_string();
    let ctx = headers_context(extract_context(None, None, Some(text.as_str()), None));
    assert!(ctx.roles.is_empty());
    assert_eq!(ctx.workspace_id, None);
    assert_eq!(ctx.user_id, None);
    let simple = tenant.simple().to_string();
    let ctx = headers_context(extract_context(None, None, Some(simple.as_str()), Some("x")));
    assert_eq!(ctx.tenant_id, tenant.as_u128());
    assert_eq!(
        extract_context(None, None, Some("not-a-uuid"), Some("builder")).unwrap_err(),
        ApiError::Unauthorized
    );
    assert_eq!(ApiError::Unauthorized.status_code(), 401);
}

#[test]
fn bearer_token_is_used_only_with_a_secret() {
    let tenant = Uuid::new_v4().to_string();
    match extract_context(Some("s3cret"), Some("Bearer  abc.def "), None, None).unwrap() {
        ContextSource::BearerToken(t) => assert_eq!(t, "abc.def"),
        ContextSource::Headers(_) => panic!("expected the token"),
    }
    let ctx = headers_context(extract_context(
        None,
        Some("Bearer abc"),
        Some(tenant.as_str()),
        None,
    ));
    assert_eq!(ctx.tenant_id, Uuid::parse_str(&tenant).unwrap().as_u128());
    assert_eq!(
        extract_context(Some("s3cret"), Some("Basic abc"), None, None).unwrap_err(),
        ApiError::Unauthorized
    );
}

#[test]
fn platform_error_messages() {
    assert_eq!(PlatformError::MissingTenantContext.message(), "missing tenant context");
    assert_eq!(PlatformError::Unauthorized.message(), "unauthorized");
    assert_eq!(PlatformError::Forbidden.message(), "forbidden");
}

#[test]
fn has_role_matches_whole_names() {
    let ctx = ctx_with_roles(1, &["tenant_admin"]);
    assert!(ctx.has_role("tenant_admin"));
    assert!(!ctx.has_role("tenant"));
    assert!(!ctx.has_role(""));
}

#[test]
fn handlers_check_role_before_decision_before_run() {
    let tenant = Uuid::new_v4().as_u128();
    let mut store = RunStore::new();
    let builder = ctx_with_roles(tenant, &["builder"]);
    let approver = ctx_with_roles(tenant, &["approver"]);
    // A builder may not decide, even with a nonsense decision on a missing run.
    assert_eq!(decide_approval(&mut store, &builder, 9, "maybe").unwrap_err(), ApiError::Forbidden);
    // An approver with a bad decision is refused before the run is looked up.
    assert_eq!(
        decide_approval(&mut store, &approver, 9, "maybe").unwrap_err(),
        ApiError::InvalidDecision
    );
    assert_eq!(decide_approval(&mut store, &approver, 9, "approve").unwrap_err(), ApiError::NotFound);
    // Approvers may not start runs; builders may.
    assert_eq!(start_workflow_run(&mut store, &approver, 5).unwrap_err(), ApiError::Forbidden);
    let run = start_workflow_run(&mut store, &builder, 5).unwrap();
    let got = get_workflow_instance(&store, &approver, run.instance_id).unwrap();
    assert_eq!(got.trace_id, run.trace_id);
    let decided = decide_approval(&mut store, &approver, run.instance_id, "reject").unwrap();
    assert_eq!(decided.status, WorkflowRunStatus::Failed);
    assert!(chrono::DateTime::parse_from_rfc3339(decided.completed_at.as_deref().unwrap()).is_ok());
    assert_eq!(
        decide_approval(&mut store, &approver, run.instance_id, "approve").unwrap_err(),
        ApiError::Conflict
    );
    let other = ctx_with_roles(Uuid::new_v4().as_u128(), &["tenant_admin"]);
    assert_eq!(get_workflow_instance(&store, &other, run.instance_id).unwrap_err(), ApiError::Forbidden);
}

#[test]
fn error_envelope_carries_code_message_and_trace() {
    let env = error_envelope(ApiError::Conflict);
    assert_eq!(env.code, "conflict");
    assert_eq!(env.message, "conflicts with the recorded decision");
    assert!(env.trace_id.starts_with("tr_"));
    assert_eq!(env.trace_id.len(), 35);
    assert_eq!(ApiError::EmptyInput.message(), "input cannot be empty");
    assert_eq!(ApiError::EmptyInput.code(), "empty_input");
    assert_eq!(ApiError::Unauthorized.code(), "unauthorized");
}

#[test]
fn start_time_is_rfc3339_utc() {
    let run = new_workflow_run(1, 2);
    let t = chrono::DateTime::parse_from_rfc3339(&run.started_at).unwrap();
    assert_eq!(t.offset().local_minus_utc(), 0);
    assert!(run.started_at.ends_with("+00:00"));
}
