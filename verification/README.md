# flow_mesh

The request-handling logic of the Flow Mesh platform services, verified with
Verus.

- `src/text.rs` – character-level helpers: equality, Unicode whitespace
  trimming, substring search, comma splitting.
- `src/ids.rs` – UUID values and their textual forms, trace ids, timestamps.
- `src/tenant.rs` – the tenant context and platform error kinds.
- `src/access.rs` – public paths, reading the tenant context from request
  headers, role requirements, refusal status codes and the error envelope.
- `src/workflow.rs` – workflow run statuses, the in-memory run store and
  approval decisions, database row checks.
- `src/requests.rs` – the gateway's workflow operations end to end, with
  their checks in order: role, then request body, then the run.
- `src/agents.rs` – the agent registry, agent selection and execution plans.
- `app/` – the two HTTP services (`api-gateway`, `agent-runtime`) around the
  library: routing, database access, JSON.
