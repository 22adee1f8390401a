# edgequake_api

The request-handling logic of the EdgeQuake knowledge-graph API, written in
Verus. The decisions the HTTP handlers take on plain values — which
documents a caller may see or delete, how a namespace schema moves through
its lifecycle, how a pipeline configuration update is validated and merged,
which stored records a re-processing or recovery run picks up and how its
counts add up, how extraction batches are keyed and polled — are functions
with `requires`/`ensures` contracts, and the library's laws are proof
functions checked by Verus. The handlers' storage, task-queue and HTTP
plumbing, and the calls into the project's own storage and task crates, are
not part of it: the library takes what they read as arguments and hands
back what they should write or answer.

Layout:

- `src/` — the verified library, one module per concern (schema lifecycle
  and merge, namespace configuration, document store layout, listing,
  deletion impact, requeueing, ingestion, extraction batches, tasks,
  tenants and workspaces, graph views, query sources, text helpers).
  Calls into `uuid` and `chrono` stand behind small trusted wrappers whose
  contracts say what those crates document.
- `tests/` — tests of the library on concrete values.
- `app/` — the unverified edge: JSON wire formats (serde copies of the
  library's types), reading stored JSON records into the library's plain
  records, directory walking for scans, and the floating-point scoring of
  query sources.
