//! Running asynchronous work from a thread that is not a task.
//!
//! tokio refuses, with a panic, to block a thread that is inside a task
//! runtime. So nothing here blocks before it has looked: a thread on which no
//! runtime is current is outside every runtime, and only the evidence of such
//! a look, an [`Outside`], opens the way to [`drive`].
use std::future::Future;
use tokio::runtime::EnterGuard;
use tokio::runtime::Handle;
use tokio::runtime::TryCurrentError;
use vstd::future::*;
use vstd::prelude::*;

verus! {

/// `tokio::runtime::TryCurrentError`, the error of `Handle::try_current`, as
/// an opaque value.
#[verifier::external_type_specification]
#[verifier::external_body]
pub struct ExTryCurrentError(tokio::runtime::TryCurrentError);

/// Whether a failed lookup failed because the thread has no task runtime, and
/// not because the thread is being torn down: what
/// `TryCurrentError::is_missing_context` says of it.
pub uninterp spec fn missing_context(error: TryCurrentError) -> bool;

/// `Handle::try_current`: a handle to the task runtime that is current on the
/// calling thread, or an error if there is none. It does not panic.
#[verifier::external_body]
pub(crate) fn try_current() -> (runtime: Result<Handle, TryCurrentError>) {
    Handle::try_current()
}

/// `TryCurrentError::is_missing_context`: whether the lookup found the
/// thread's context in place and no runtime in it.
#[verifier::external_body]
fn is_missing_context(error: &TryCurrentError) -> (missing: bool)
    ensures
        missing == missing_context(*error),
{
    error.is_missing_context()
}

/// Evidence that the calling thread is outside every task runtime: a lookup
/// of the current runtime that failed for want of one. A thread that is
/// inside a runtime has that runtime as its current one, so on a thread where
/// the lookup fails blocking is safe. The converse does not hold: a thread
/// can have a current runtime without being inside it, and is then treated as
/// if it were.
///
/// It says nothing of another thread or a later time, so it stays inside
/// this crate and is made where it is used: no public function hands one out
/// or lends one to code of the caller's.
pub struct Outside {
    lookup: TryCurrentError,
}

impl Outside {
    /// The lookup behind this evidence found no runtime.
    pub closed spec fn sound(&self) -> bool {
        missing_context(self.lookup)
    }

    /// What a lookup of the current runtime shows: evidence exactly when it
    /// failed for want of a runtime.
    fn from_lookup(lookup: Result<Handle, TryCurrentError>) -> (outside: Option<Self>)
        ensures
            outside is Some <==> (lookup matches Err(error) && missing_context(error)),
            outside matches Some(outside) ==> outside.sound(),
    {
        match lookup {
            Ok(_) => None,
            Err(error) => if is_missing_context(&error) {
                Some(Outside { lookup: error })
            } else {
                None
            },
        }
    }

    /// Looks whether the calling thread is outside every task runtime. `None`
    /// says that it is not, or that it cannot be told.
    pub(crate) fn check() -> (outside: Option<Self>)
        ensures
            outside matches Some(outside) ==> outside.sound(),
    {
        Self::from_lookup(try_current())
    }
}

/// `tokio::runtime::EnterGuard`, as an opaque value: the runtime it was
/// made for is the current one of the thread for as long as the guard lives.
#[verifier::external_type_specification]
#[verifier::external_body]
pub struct ExEnterGuard<'a>(tokio::runtime::EnterGuard<'a>);

/// `Handle::enter`: makes `runtime` the current runtime of the calling
/// thread, until the guard is dropped. What is called meanwhile can spawn
/// tasks and build timers on it. The thread is not inside the runtime for
/// that, and can still be blocked.
///
/// tokio panics in it when the thread's context is gone; `outside` is the
/// evidence of a lookup that found it in place. It panics in the guard's drop
/// when what was called meanwhile has made a guard of its own and kept it.
#[verifier::external_body]
pub(crate) fn enter<'a>(runtime: &'a Handle, outside: &Outside) -> (context: EnterGuard<'a>)
    requires
        outside.sound(),
{
    runtime.enter()
}

/// `Handle::block_on`: runs `work` on the calling thread until it is complete
/// and yields what it resolved to. The calling thread is blocked for all of
/// that time.
///
/// tokio panics in it when the calling thread is inside a runtime; `outside`
/// is the evidence that it is not. Two panics are left, and both are the
/// work's: `work` panics by itself, or it waits on a timer of a runtime that
/// has been shut down in the meantime.
#[verifier::external_body]
pub(crate) fn drive<F>(runtime: &Handle, outside: &Outside, work: F) -> (output: F::Output) where
    F: Future,

    requires
        outside.sound(),
    ensures
        output == work@,
{
    runtime.block_on(work)
}

} // verus!
