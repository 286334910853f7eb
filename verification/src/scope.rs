//! A scope whose spawned tasks are cancelled together: when the scope is cancelled, or when
//! it (or any clone of it) is dropped.
use core::future::Future;
use tokio::runtime::Handle;
use tokio::task::JoinHandle;
use tokio_util::sync::CancellationToken;
use tokio_util::task::TaskTracker;
use vstd::prelude::*;

use crate::bindings::{
    spawn_in_scope, spawn_in_scope_with_hooks, token_cancel, token_clone, token_new,
    tracker_clone, tracker_new,
};

verus! {

/// A Scope for spawning Tokio tasks.
///
/// When the Scope is dropped, any tasks which are still executing are cancelled.
/// If you want to cancel all tasks sooner, you can use [Scope::cancel()].
/// Clones of a Scope share its cancellation: cancelling or dropping any of them cancels the
/// tasks spawned through all of them.
#[derive(Debug)]
pub struct Scope {
    pub(crate) token: CancellationToken,
    pub(crate) tracker: TaskTracker,
}

/// What a spawned task does once its guarded future has resolved: it runs the completion
/// hook and keeps the output when the future finished, and runs the cancellation hook and
/// gives `None` when the scope was cancelled first.
pub fn finish_task<R, C, D>(outcome: Option<R>, on_completion: C, on_cancellation: D) -> (res:
    Option<R>) where C: FnOnce(), D: FnOnce()
    requires
        outcome is Some ==> on_completion.requires(()),
        outcome is None ==> on_cancellation.requires(()),
    ensures
        res == outcome,
        outcome is Some ==> on_completion.ensures((), ()),
        outcome is None ==> on_cancellation.ensures((), ()),
{
    match outcome {
        Some(r) => {
            on_completion();
            Some(r)
        },
        None => {
            on_cancellation();
            None
        },
    }
}

/// The two hooks of a task spawned with [Scope::spawn_with_hooks].
pub struct Hooks<C, D> {
    /// Runs if the task's future completes before the scope is cancelled.
    pub on_completion: C,
    /// Runs if the scope is cancelled before the task's future completes.
    pub on_cancellation: D,
}

impl<C: FnOnce(), D: FnOnce()> Hooks<C, D> {
    /// Both hooks may be called.
    pub open spec fn callable(&self) -> bool {
        &&& self.on_completion.requires(())
        &&& self.on_cancellation.requires(())
    }

    /// Settle a task whose guarded future gave `outcome`: see [finish_task].
    pub fn finish<R>(self, outcome: Option<R>) -> (res: Option<R>)
        requires
            outcome is Some ==> self.on_completion.requires(()),
            outcome is None ==> self.on_cancellation.requires(()),
        ensures
            res == outcome,
            outcome is Some ==> self.on_completion.ensures((), ()),
            outcome is None ==> self.on_cancellation.ensures((), ()),
    {
        finish_task(outcome, self.on_completion, self.on_cancellation)
    }
}

impl Scope {
    /// Create a new scoped task spawner.
    ///
    /// Tasks may be cancelled manually, using `cancel()`, or automatically
    /// when the Scope is dropped.
    pub fn new() -> (s: Self) {
        Scope { token: token_new(), tracker: tracker_new() }
    }

    /// Cancel all the spawned, and still executing, tasks.
    pub fn cancel(&self) {
        token_cancel(&self.token);
    }

    /// Spawn a task within the scope, on the runtime that `runtime` is a handle to.
    ///
    /// The returned handle resolves to `Some(value)` if the future completes, and to `None`
    /// if the scope is cancelled (or dropped) first, or was already cancelled when the task
    /// first ran.
    pub fn spawn<F, R>(&self, runtime: &Handle, future: F) -> JoinHandle<Option<R>> where
        F: Future<Output = R> + Send + 'static,
        R: Send + 'static,
     {
        spawn_in_scope(self, runtime, future)
    }

    /// Spawn a "fire-and-forget" task with completion and cancellation hooks, on the runtime
    /// that `runtime` is a handle to.
    ///
    /// - The `on_completion` closure runs if the task finishes successfully.
    /// - The `on_cancellation` closure runs if the task is cancelled.
    ///
    /// If the future panics, the task ends without running either hook.
    pub fn spawn_with_hooks<F, C, D, R>(
        &self,
        runtime: &Handle,
        future: F,
        on_completion: C,
        on_cancellation: D,
    ) where
        F: Future<Output = R> + Send + 'static,
        C: FnOnce() + Send + 'static,
        D: FnOnce() + Send + 'static,
        R: Send + 'static,

        requires
            on_completion.requires(()),
            on_cancellation.requires(()),
    {
        let hooks = Hooks { on_completion, on_cancellation };
        let _handle = spawn_in_scope_with_hooks(self, runtime, future, hooks);
    }
}

impl Clone for Scope {
    /// A clone shares the scope's cancellation and its set of tracked tasks.
    fn clone(&self) -> (res: Self)
        ensures
            res == *self,
    {
        Scope { token: token_clone(&self.token), tracker: tracker_clone(&self.tracker) }
    }
}

impl Default for Scope {
    /// The same as [Scope::new()].
    fn default() -> (s: Self) {
        Scope::new()
    }
}

impl Drop for Scope {
    /// Dropping a scope cancels it (`CancellationToken::cancel` on its token), and with it the
    /// tasks spawned through it and through all of its clones. Cancelling does not unwind:
    /// nothing that runs under the token's locks can panic.
    #[verifier::external_body]
    fn drop(&mut self)
        opens_invariants none
        no_unwind
    {
        self.token.cancel();
    }
}

} // verus!
