//! The tokio runtime, as far as this library relies on it.

use std::future::Future;

use vstd::future::FutureAdditionalSpecFns;
use vstd::prelude::*;

verus! {

/// [`tokio::runtime::Handle`], a reference to a runtime that tasks can be
/// spawned on. Nothing is assumed of what is inside.
#[verifier::external_type_specification]
#[verifier::external_body]
pub struct ExHandle(tokio::runtime::Handle);

/// [`tokio::runtime::TryCurrentError`], the reason why there is no ambient
/// runtime. Nothing is assumed of what is inside.
#[verifier::external_type_specification]
#[verifier::external_body]
pub struct ExTryCurrentError(tokio::runtime::TryCurrentError);

/// [`tokio::task::JoinHandle`], the future of a spawned task's outcome. Nothing
/// is assumed of what is inside.
#[verifier::external_type_specification]
#[verifier::external_body]
#[verifier::reject_recursive_types(T)]
pub struct ExJoinHandle<T>(tokio::task::JoinHandle<T>);

/// [`tokio::task::JoinError`], the reason why a spawned task has no output: it
/// was cancelled, or it panicked. Nothing is assumed of what is inside.
#[verifier::external_type_specification]
#[verifier::external_body]
pub struct ExJoinError(tokio::task::JoinError);

/// [`tokio::runtime::Handle::try_current`] gives the handle of the runtime in
/// whose context the calling thread is, or an error where there is none. It
/// never panics. Which of the two comes, and which runtime, rests on the
/// calling thread, so nothing is claimed of the result.
pub assume_specification[ tokio::runtime::Handle::try_current ]() -> (current: Result<
    tokio::runtime::Handle,
    tokio::runtime::TryCurrentError,
>);

/// The runtime that a task was spawned on. The task holds a reference to it.
pub uninterp spec fn spawned_on(task: tokio::task::JoinHandle<()>) -> tokio::runtime::Handle;

/// [`tokio::runtime::Handle::spawn`] hands `future` to the runtime of `handle`,
/// which polls it to completion in the background. What is claimed: the task is
/// one of that runtime, and where it ends without an error, `future` was polled
/// to completion. Whether it gets that far is not: the runtime may be shut down
/// first, and `future` may panic.
#[verifier::external_body]
pub(crate) fn spawn<T>(handle: &tokio::runtime::Handle, future: T) -> (task:
    tokio::task::JoinHandle<()>) where T: Future<Output = ()> + Send + 'static
    ensures
        spawned_on(task) == *handle,
        task@ is Ok ==> future.awaited(),
{
    handle.spawn(future)
}

} // verus!
