//! Declarations of the Tokio and OpenTelemetry types that the scopes and services carry,
//! and the calls into those crates.
//!
//! Every value of these types is opaque here: the library only carries them through. Spec
//! equality on `CancellationToken` and `TaskTracker` stands for the crates' own identity of
//! handles (`CancellationToken::eq`, `TaskTracker::ptr_eq`): two handles are equal when they
//! share one cancellation state, or one set of tracked tasks.
use core::future::Future;
use futures_util::FutureExt as _;
use opentelemetry::metrics::{Counter, InstrumentBuilder, Meter};
use tokio::runtime::Handle;
use tokio::task::{JoinError, JoinHandle};
use tokio_util::sync::CancellationToken;
use tokio_util::task::TaskTracker;
use vstd::prelude::*;

use crate::scope::{Hooks, Scope};

verus! {

/// The cancellation token of `tokio_util`.
#[verifier::external_type_specification]
#[verifier::external_body]
pub struct ExCancellationToken(CancellationToken);

/// The task tracker of `tokio_util`.
#[verifier::external_type_specification]
#[verifier::external_body]
pub struct ExTaskTracker(TaskTracker);

/// The handle that Tokio returns for a spawned task.
#[verifier::external_type_specification]
#[verifier::external_body]
#[verifier::reject_recursive_types(T)]
pub struct ExJoinHandle<T>(JoinHandle<T>);

/// A handle to a Tokio runtime.
#[verifier::external_type_specification]
#[verifier::external_body]
pub struct ExHandle(Handle);

/// The error that awaiting a Tokio task handle can give.
#[verifier::external_type_specification]
#[verifier::external_body]
pub struct ExJoinError(JoinError);

/// An OpenTelemetry meter.
#[verifier::external_type_specification]
#[verifier::external_body]
pub struct ExMeter(Meter);

/// An OpenTelemetry counter instrument.
#[verifier::external_type_specification]
#[verifier::external_body]
#[verifier::reject_recursive_types(T)]
pub struct ExCounter<T>(Counter<T>);

/// The builder that `Meter::u64_counter` hands back.
#[verifier::external_type_specification]
#[verifier::external_body]
#[verifier::reject_recursive_types(T)]
pub struct ExInstrumentBuilder<'a, T>(InstrumentBuilder<'a, T>);

/// Calls `CancellationToken::new`, which makes a token in the non-cancelled state. Whether a
/// token is cancelled changes behind shared references, so nothing is stated of it.
#[verifier::external_body]
pub(crate) fn token_new() -> CancellationToken {
    CancellationToken::new()
}

/// Calls `CancellationToken::cancel`, which cancels the token and every clone of it. The state
/// it changes is shared and not part of the token's value, so no clause speaks of it.
#[verifier::external_body]
pub(crate) fn token_cancel(token: &CancellationToken) {
    token.cancel()
}

/// Calls `<CancellationToken as Clone>::clone`. `tokio_util` documents that the clone is
/// cancelled whenever the token it was cloned from is, and vice versa, and its `==` holds
/// between the two: the contract states that the clone equals the token it came from.
#[verifier::external_body]
pub(crate) fn token_clone(token: &CancellationToken) -> (res: CancellationToken)
    ensures
        res == *token,
{
    token.clone()
}

/// Calls `TaskTracker::new`, which makes an open tracker with no tasks. Nothing is stated of
/// that state, which changes behind shared references.
#[verifier::external_body]
pub(crate) fn tracker_new() -> TaskTracker {
    TaskTracker::new()
}

/// Calls `<TaskTracker as Clone>::clone`. `tokio_util` documents that the clone tracks the
/// same set of tasks (`TaskTracker::ptr_eq` holds between the two): the contract states that
/// the clone equals the tracker it came from.
#[verifier::external_body]
pub(crate) fn tracker_clone(tracker: &TaskTracker) -> (res: TaskTracker)
    ensures
        res == *tracker,
{
    tracker.clone()
}

/// Spawns `future` in `scope`: calls `CancellationToken::clone` on the scope's token,
/// `CancellationToken::run_until_cancelled_owned` with that clone and `future`, and
/// `TaskTracker::spawn_on` with the resulting future, the scope's tracker and `runtime`.
/// When the task first runs it gives `None` if the token is cancelled by then; otherwise it
/// runs `future` and gives `Some` of its output, or `None` if the token is cancelled first.
/// `TaskTracker::spawn_on` spawns through `Handle::spawn`, which does not panic. The handle
/// is opaque here, so nothing is stated of it.
#[verifier::external_body]
pub(crate) fn spawn_in_scope<F, R>(scope: &Scope, runtime: &Handle, future: F) -> JoinHandle<
    Option<R>,
> where F: Future<Output = R> + Send + 'static, R: Send + 'static {
    scope.tracker.spawn_on(scope.token.clone().run_until_cancelled_owned(future), runtime)
}

/// Like [spawn_in_scope], but the task hands its `Option` to `Hooks::finish` (a verified
/// function of the library) through `futures_util::FutureExt::map`, and gives that call's
/// result. If `future` panics, the task ends with the panic and `Hooks::finish` is not
/// called. Nothing is stated of the handle.
#[verifier::external_body]
pub(crate) fn spawn_in_scope_with_hooks<F, R, C, D>(
    scope: &Scope,
    runtime: &Handle,
    future: F,
    hooks: Hooks<C, D>,
) -> JoinHandle<Option<R>> where
    F: Future<Output = R> + Send + 'static,
    R: Send + 'static,
    C: FnOnce() + Send + 'static,
    D: FnOnce() + Send + 'static,

    requires
        hooks.callable(),
 {
    let guarded = scope.token.clone().run_until_cancelled_owned(future);
    scope.tracker.spawn_on(guarded.map(move |outcome| hooks.finish(outcome)), runtime)
}

/// `<Meter as Clone>::clone`, which the derived `Clone` of the services calls. The clone is
/// a handle to the same instrument provider; nothing is stated of it.
pub assume_specification[ <Meter as Clone>::clone ](meter: &Meter) -> Meter;

/// `<Counter<T> as Clone>::clone`, which the derived `Clone` of the services calls. The clone
/// is a handle to the same instrument; nothing is stated of it.
pub assume_specification<T>[ <Counter<T> as Clone>::clone ](counter: &Counter<T>) -> Counter<
    T,
> where T: Clone;

/// Calls `opentelemetry::global::meter`, which asks the global meter provider, as it is
/// configured at the time of the call, for a meter of that name. The result rests on that
/// global configuration, so nothing is stated of it.
#[verifier::external_body]
pub(crate) fn global_meter(name: &'static str) -> Meter {
    opentelemetry::global::meter(name)
}

/// Calls `Meter::u64_counter`, which starts building a `u64` counter instrument of that name
/// on the meter. Nothing is stated of the builder.
#[verifier::external_body]
pub(crate) fn meter_u64_counter<'a>(
    meter: &'a Meter,
    name: &'static str,
) -> InstrumentBuilder<'a, Counter<u64>> {
    meter.u64_counter(name)
}

/// Calls `InstrumentBuilder::build` for a `u64` counter: the meter's provider makes the
/// instrument (a no-op one where the configuration is invalid). Nothing is stated of it.
#[verifier::external_body]
pub(crate) fn build_u64_counter(builder: InstrumentBuilder<'_, Counter<u64>>) -> Counter<u64> {
    builder.build()
}

} // verus!
