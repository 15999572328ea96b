# portus_runtime

The decision logic of the Portus local runtime, verified with Verus, and the
`portusd` daemon around it.

- `src/` is the verified library. Every public function states in its
  contract what it returns for every input; the laws of the runtime (the task
  lifecycle, event retention and resume, health catalogue visibility, index
  reconciliation, provider resource reconciliation, the visual-fallback flow,
  connection limits) are public proof functions next to the code they govern.
  - `task`, `engine`: the task state machine, stored transitions and the
    engine's launch, completion, cancellation and restart steps.
  - `event_log`, `event_hub`, `stream`: significant-event validation,
    retention and paging; the in-memory subscriber hub; the task event stream
    as a state machine.
  - `migration`: the schema migration plan, history reading and readiness.
  - `health`: health observations and the per-caller catalogue.
  - `index`, `index_query`: index reconciliation, bounded queries and
    topology walks.
  - `provider`, `provider_index`, `provider_refs`: provider registry checks,
    the provider index batch and provider resource reconciliation.
  - `artifact`: artifact visibility, registration checks, cleanup eligibility
    and stored-row decoding.
  - `visual`, `visual_flow`: visual-fallback target checks and the
    operation flow as a state machine.
  - `runtime`: readiness, request checks, dispatch auditing, configuration and
    connection accounting.
  - `text`, `safety`, `ids`: byte-level text checks, secret screening and
    principals.
  - `json`: the byte length of the compact JSON encoding of safe data, which
    bounds stored event data, artifact metadata and health details; serde_json
    escapes each string.
- `app/` is the daemon: configuration, the SQLite store, the Unix-domain
  socket server and the JSON protocol. It performs the I/O; where it decides,
  it asks the library. It serves the task, event, artifact, health, index
  status, index query, show and topology methods. The provider and index
  reconciliation, artifact registration and cleanup, and visual-fallback
  parts of the library have no caller in the daemon yet: the provider
  manifests, index sources, policy snapshots and visual backends they work on
  are not wired up, and the daemon answers those methods as unavailable.
- `tests/` runs the library on concrete values.
