//! The gateway's workflow operations end to end, with the order in which
//! their checks apply: the caller's role first, then the request body, then
//! the run itself.
use crate::access::{authorize_approval_decision, authorize_workflow_run, holds, ApiError};
use crate::tenant::TenantContext;
use crate::workflow::{
    check_instance_access, decision_applied, decision_status, instance_access, is_fresh_run,
    new_workflow_run, parse_decision, stored_run, RunStore, WorkflowRun, WorkflowRunStatus,
};
use vstd::prelude::*;

verus! {

/// The caller may start workflow runs.
pub open spec fn may_start_runs(ctx: &TenantContext) -> bool {
    holds(ctx, "tenant_admin"@) || holds(ctx, "builder"@)
}

/// The caller may decide approvals.
pub open spec fn may_decide(ctx: &TenantContext) -> bool {
    holds(ctx, "tenant_admin"@) || holds(ctx, "approver"@)
}

/// Admits a request to start a run of `workflow_id`: callers without the
/// role are refused; otherwise a fresh run for the caller's tenant.
pub fn begin_workflow_run(ctx: &TenantContext, workflow_id: u128) -> (r: Result<
    WorkflowRun,
    ApiError,
>)
    ensures
        !may_start_runs(ctx) ==> r == Err::<WorkflowRun, ApiError>(ApiError::Forbidden),
        may_start_runs(ctx) ==> (r matches Ok(run) && is_fresh_run(run, ctx.tenant_id, workflow_id)),
{
    authorize_workflow_run(ctx)?;
    Ok(new_workflow_run(ctx.tenant_id, workflow_id))
}

/// Starts a run of `workflow_id` for the caller and stores it.
pub fn start_workflow_run(store: &mut RunStore, ctx: &TenantContext, workflow_id: u128) -> (r:
    Result<WorkflowRun, ApiError>)
    requires
        old(store).wf(),
    ensures
        final(store).wf(),
        !may_start_runs(ctx) ==> r == Err::<WorkflowRun, ApiError>(ApiError::Forbidden)
            && final(store)@ == old(store)@,
        may_start_runs(ctx) ==> (r matches Ok(run) && is_fresh_run(run, ctx.tenant_id, workflow_id)
            && final(store)@ == old(store)@.insert(run.instance_id, run)),
{
    let run = begin_workflow_run(ctx, workflow_id)?;
    store.persist_run(&run);
    Ok(run)
}

/// The caller's run `instance_id`: not found, forbidden when another
/// tenant's, else the run.
pub fn get_workflow_instance(store: &RunStore, ctx: &TenantContext, instance_id: u128) -> (r:
    Result<WorkflowRun, ApiError>)
    ensures
        r == instance_access(stored_run(store@, instance_id), ctx.tenant_id),
{
    check_instance_access(store.fetch_workflow_run(instance_id), ctx.tenant_id)
}

/// Admits an approval decision: callers without the role are refused before
/// the decision is read; a decision other than `approve` or `reject` is
/// invalid; otherwise the status it asks for.
pub fn approval_request(ctx: &TenantContext, decision: &str) -> (r: Result<
    WorkflowRunStatus,
    ApiError,
>)
    ensures
        !may_decide(ctx) ==> r == Err::<WorkflowRunStatus, ApiError>(ApiError::Forbidden),
        may_decide(ctx) ==> match decision_status(decision@) {
            Some(s) => r == Ok::<WorkflowRunStatus, ApiError>(s),
            None => r == Err::<WorkflowRunStatus, ApiError>(ApiError::InvalidDecision),
        },
{
    authorize_approval_decision(ctx)?;
    parse_decision(decision)
}

/// Applies the caller's `decision` on run `approval_id`, checking the role,
/// then the decision, then the run.
pub fn decide_approval(
    store: &mut RunStore,
    ctx: &TenantContext,
    approval_id: u128,
    decision: &str,
) -> (r: Result<WorkflowRun, ApiError>)
    requires
        old(store).wf(),
    ensures
        final(store).wf(),
        !may_decide(ctx) ==> r == Err::<WorkflowRun, ApiError>(ApiError::Forbidden)
            && final(store)@ == old(store)@,
        may_decide(ctx) && decision_status(decision@) is None
            ==> r == Err::<WorkflowRun, ApiError>(ApiError::InvalidDecision)
            && final(store)@ == old(store)@,
        may_decide(ctx) && decision_status(decision@) is Some ==> decision_applied(
            old(store)@,
            final(store)@,
            approval_id,
            ctx.tenant_id,
            decision_status(decision@)->0,
            r,
        ),
{
    let desired = approval_request(ctx, decision)?;
    store.apply_approval_decision(approval_id, ctx.tenant_id, desired)
}

} // verus!
