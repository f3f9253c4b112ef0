//! Tenant-context, workflow-run and agent-routing logic of the Flow Mesh
//! platform services, with its contracts.
pub mod text;
pub mod ids;
pub mod tenant;
pub mod access;
pub mod workflow;
pub mod agents;
pub mod requests;
