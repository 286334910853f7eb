//! Scoped task spawning for Tokio: tasks spawned in a `Scope` are cancelled when the scope is
//! cancelled or dropped. The Tower modules give each request a scope of its own, which is
//! cancelled when the request's response future is dropped.
pub mod bindings;
pub mod scope;
pub mod spawn_scope;
pub mod tower_scope_spawn;
pub mod tower_spawn_scope;
