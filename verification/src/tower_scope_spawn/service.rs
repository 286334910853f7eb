//! A scoped service: every call creates a scope, hands it to the inner service with the
//! request, and keeps it in the returned future, so that the scope is cancelled when that
//! future is dropped.
use vstd::prelude::*;

use crate::scope::Scope;

verus! {

/// Request wrapper
#[derive(Debug)]
pub struct WithScope<Req> {
    /// The request, wrapped together with its scope
    pub request: Req,
    /// The Scope of the wrapped request
    pub scope: Scope,
}

/// A spawn scope service.
#[derive(Clone, Debug)]
pub struct ScopeSpawnService<S> {
    inner: S,
}

impl<S> ScopeSpawnService<S> {
    /// The service that this one wraps.
    pub closed spec fn inner_service(self) -> S {
        self.inner
    }

    /// Create a new ScopeSpawnService
    pub fn new(inner: S) -> (s: Self)
        ensures
            s.inner_service() == inner,
    {
        ScopeSpawnService { inner }
    }

    /// Borrow the wrapped service mutably, to drive it.
    pub fn inner_mut(&mut self) -> (res: &mut S)
        ensures
            *res == old(self).inner_service(),
            final(self).inner_service() == *final(res),
    {
        &mut self.inner
    }

    /// Give up the wrapper and take back the wrapped service.
    pub fn into_inner(self) -> (res: S)
        ensures
            res == self.inner_service(),
    {
        self.inner
    }
}

/// What a call of the service does around the call of the inner service (`call_inner`):
/// it creates a new scope, calls the inner service with the request and that scope, and
/// returns the inner service's future together with the same scope.
pub fn scoped_call<Req, Fut, G>(req: Req, call_inner: G) -> (fut: ScopeFuture<Fut>) where
    G: FnOnce(WithScope<Req>) -> Fut,

    requires
        forall|w: WithScope<Req>| call_inner.requires((w,)),
    ensures
        call_inner.ensures(
            (WithScope { request: req, scope: fut.held_scope() },),
            fut.inner_future(),
        ),
{
    let scope = Scope::new();
    let inner_req_with_scope = WithScope { request: req, scope: scope.clone() };
    let inner_future = call_inner(inner_req_with_scope);
    ScopeFuture::new(inner_future, scope)
}

/// A ScopeFuture: an inner future together with the scope that is cancelled when the
/// future is dropped. Useful for integrating Scope with tower, axum, etc.
#[derive(Clone, Debug)]
pub struct ScopeFuture<F> {
    inner: F,
    scope: Scope,
}

impl<F> ScopeFuture<F> {
    /// The future that this one wraps.
    pub closed spec fn inner_future(self) -> F {
        self.inner
    }

    /// The scope that this future holds.
    pub closed spec fn held_scope(self) -> Scope {
        self.scope
    }

    /// Create a new ScopeFuture
    pub fn new(inner: F, scope: Scope) -> (res: Self)
        ensures
            res.inner_future() == inner,
            res.held_scope() == scope,
    {
        ScopeFuture { inner, scope }
    }

    /// Borrow the scope
    pub fn scope(&self) -> (res: &Scope)
        ensures
            *res == self.held_scope(),
    {
        &self.scope
    }

    /// Take the future apart into the inner future and the scope.
    pub fn into_parts(self) -> (res: (F, Scope))
        ensures
            res.0 == self.inner_future(),
            res.1 == self.held_scope(),
    {
        (self.inner, self.scope)
    }
}

} // verus!
