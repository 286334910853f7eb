# scope_spawn

Scoped task spawning for Tokio, verified with Verus. Tasks spawned in a `Scope` are
cancelled when the scope is cancelled or dropped; clones of a scope share that cancellation.
The Tower modules give every request a scope of its own, cancelled when the request's
response future is dropped.

- `src/scope.rs`: `Scope` with `spawn` (on the runtime of a given `Handle`; the task handle
  gives `Some(output)` or `None` on cancellation) and `spawn_with_hooks`, and `Hooks` /
  `finish_task`, the verified choice of hook.
- `src/spawn_scope.rs`: the earlier `Scope` (built on the one above), spawning through the
  `ScopedSpawn` trait.
- `src/tower_scope_spawn/`: `WithScope`, `ScopeSpawnService`, `scoped_call` (what a call does
  around the inner service), `ScopeFuture`, `ScopeSpawnLayer`.
- `src/tower_spawn_scope/`: `SpawnScopeService` with its OpenTelemetry meter, `ScopeFuture`,
  `SpawnScopeLayer`.
- `src/bindings.rs`: the declared Tokio, `tokio_util` and OpenTelemetry types and the trusted
  calls into those crates.
- `app/`: the `tower::Layer`, `tower::Service` and `Future` implementations (with
  `pin_project`), on copies of the library's types.
