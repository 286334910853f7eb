//! The layer that applies [SpawnScopeService].
use vstd::prelude::*;

use crate::tower_spawn_scope::service::SpawnScopeService;

verus! {

/// Applies Spawn Scope to requests.
#[derive(Clone, Debug, Default)]
pub struct SpawnScopeLayer {}

impl SpawnScopeLayer {
    /// Create a SpawnScopeLayer
    pub fn new() -> (res: Self) {
        SpawnScopeLayer {  }
    }

    /// Wrap a service in a [SpawnScopeService].
    pub fn layer<S>(&self, service: S) -> (res: SpawnScopeService<S>)
        ensures
            res.inner_service() == service,
    {
        SpawnScopeService::new(service)
    }
}

} // verus!
