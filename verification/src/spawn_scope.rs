//! The earlier form of the scope: spawning goes through the [ScopedSpawn] trait, and the
//! spawned tasks give no output.
use core::future::Future;
use tokio::runtime::Handle;
use vstd::prelude::*;

use crate::scope;

verus! {

/// A Scope for spawning Tokio Tasks.
///
/// Tasks spawned in it are cancelled when it is cancelled or dropped; clones share that
/// cancellation.
#[derive(Debug)]
pub struct Scope {
    scope: scope::Scope,
}

impl Scope {
    /// Create a new scoped task spawner
    ///
    /// Tasks may be cancelled manually, using `cancel()`, or automatically
    /// when the Scope is dropped.
    pub fn new() -> (s: Self) {
        Scope { scope: scope::Scope::new() }
    }

    /// Cancel all spawned tasks.
    ///
    /// Note: Spawned tasks will be cancelled when the scope is dropped.
    /// However, if you wish to cancel them sooner, you can.
    pub fn cancel(&self) {
        self.scope.cancel();
    }
}

impl Clone for Scope {
    /// A clone shares the scope's cancellation and its set of tracked tasks.
    fn clone(&self) -> (res: Self)
        ensures
            res == *self,
    {
        Scope { scope: self.scope.clone() }
    }
}

impl Default for Scope {
    /// The same as [Scope::new()].
    fn default() -> (s: Self) {
        Scope::new()
    }
}

/// Spawning of tasks that end when the spawner's scope is cancelled.
pub trait ScopedSpawn {
    /// Spawn a task on the tokio runtime that `runtime` is a handle to.
    fn spawn<F>(&self, runtime: &Handle, future: F) where F: Future<Output = ()> + Send + 'static;

    /// Spawn a task on the tokio runtime that `runtime` is a handle to, with associated post
    /// execution tasks.
    ///
    /// If the task is cancelled, the provided cleanup function will execute.
    /// If the task completes, the provided complete function will execute.
    fn spawn_with_hooks<F, C, D>(
        &self,
        runtime: &Handle,
        future: F,
        on_completion: C,
        on_cancellation: D,
    ) where
        F: Future<Output = ()> + Send + 'static,
        C: FnOnce() + Send + 'static,
        D: FnOnce() + Send + 'static,

        requires
            on_completion.requires(()),
            on_cancellation.requires(()),
    ;
}

impl ScopedSpawn for Scope {
    fn spawn<F>(&self, runtime: &Handle, future: F) where F: Future<Output = ()> + Send + 'static {
        let _handle = self.scope.spawn(runtime, future);
    }

    fn spawn_with_hooks<F, C, D>(
        &self,
        runtime: &Handle,
        future: F,
        on_completion: C,
        on_cancellation: D,
    ) where
        F: Future<Output = ()> + Send + 'static,
        C: FnOnce() + Send + 'static,
        D: FnOnce() + Send + 'static,
     {
        self.scope.spawn_with_hooks(runtime, future, on_completion, on_cancellation);
    }
}

} // verus!
