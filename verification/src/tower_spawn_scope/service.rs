//! A service whose every response future holds a fresh scope, cancelled when that future is
//! dropped, and which carries OpenTelemetry instruments.
use opentelemetry::metrics::{Counter, Meter};
use vstd::prelude::*;

use crate::bindings::{build_u64_counter, global_meter, meter_u64_counter};
use crate::spawn_scope::Scope;

verus! {

#[derive(Clone, Debug)]
struct SpawnScopeServiceMetrics {
    early_wake: Counter<u64>,
}

/// A spawn scope service.
#[derive(Clone, Debug)]
pub struct SpawnScopeService<S> {
    inner: S,
    meter: Meter,
    instruments: SpawnScopeServiceMetrics,
}

impl<S> SpawnScopeService<S> {
    /// The service that this one wraps.
    pub closed spec fn inner_service(self) -> S {
        self.inner
    }

    /// Wrap `inner`, with a meter of the global meter provider and an `early_wake` counter.
    pub fn new(inner: S) -> (s: Self)
        ensures
            s.inner_service() == inner,
    {
        let meter = global_meter("rate_limit_service");
        let instruments = SpawnScopeServiceMetrics {
            early_wake: build_u64_counter(meter_u64_counter(&meter, "early_wake")),
        };
        SpawnScopeService { inner, meter: global_meter("spawn_scope_service"), instruments }
    }

    /// Borrow the wrapped service mutably, to drive it.
    pub fn inner_mut(&mut self) -> (res: &mut S)
        ensures
            *res == old(self).inner_service(),
            final(self).inner_service() == *final(res),
    {
        &mut self.inner
    }
}

/// A ScopeFuture: an inner future together with a scope of its own, which is cancelled
/// when the future is dropped. Useful for integrating Scope with tower, axum, etc.
pub struct ScopeFuture<F> {
    inner: F,
    scope: Scope,
}

impl<F> ScopeFuture<F> {
    /// The future that this one wraps.
    pub closed spec fn inner_future(self) -> F {
        self.inner
    }

    /// The scope that this future holds.
    pub closed spec fn held_scope(self) -> Scope {
        self.scope
    }

    /// Wrap `inner` with a new scope.
    pub fn new(inner: F) -> (res: Self)
        ensures
            res.inner_future() == inner,
    {
        ScopeFuture { inner, scope: Scope::new() }
    }

    /// Borrow the scope.
    pub fn scope_ref(&self) -> (res: &Scope)
        ensures
            *res == self.held_scope(),
    {
        &self.scope
    }

    /// Take the future apart into the inner future and the scope.
    pub fn into_parts(self) -> (res: (F, Scope))
        ensures
            res.0 == self.inner_future(),
            res.1 == self.held_scope(),
    {
        (self.inner, self.scope)
    }
}

} // verus!
