# npc_backend

Verified core of the NPC cluster backends.

- `src/` is the library, verified with Verus: Matrix account registration
  (URL, HMAC over the registration fields, request body, outcome), the
  controller's sign-in state machine, agent naming and provisioning, agent
  scaling decisions, the sorted mirror of the agent room's members, and the
  in-memory registries of VM configurations and task queues of both backends.
- `app/` is the HTTP servers, Matrix, Kubernetes and gateway I/O around it.
- `tests/` exercises the library on concrete values.

`app/` calls `matrix-sdk` as the backends do, but `Cargo.toml` does not name
it: with it the dependency lock came to more packages than the build allows,
so the Matrix parts of `app/` do not compile here.
