//! A Scoped Layer
use vstd::prelude::*;

use crate::tower_scope_spawn::service::ScopeSpawnService;

verus! {

/// Applies Spawn Scope to requests.
#[derive(Copy, Clone, Debug, Default)]
pub struct ScopeSpawnLayer {}

impl ScopeSpawnLayer {
    /// Create a ScopeSpawnLayer
    pub fn new() -> (res: Self) {
        ScopeSpawnLayer {  }
    }

    /// Wrap a service in a [ScopeSpawnService].
    pub fn layer<S>(&self, service: S) -> (res: ScopeSpawnService<S>)
        ensures
            res.inner_service() == service,
    {
        ScopeSpawnService::new(service)
    }
}

} // verus!
