//! What a registration captures: a weak reference to the shard manager and a
//! handle to the task runtime.
use crate::disconnector::Disconnector;
use crate::error::SignalError;
use crate::runtime::try_current;
use crate::target::downgrade;
use crate::target::referent;
use crate::target::WeakShardManager;
use serenity::client::bridge::gateway::ShardManager;
use std::sync::Arc;
use tokio::runtime::Handle;
use tokio::sync::Mutex;
use vstd::prelude::*;

verus! {

/// A watch on a shard manager: it can tell, at any later time, whether the
/// shard manager is still there, and it knows the task runtime on which the
/// shard manager is to be shut down.
///
/// The watch holds no strong reference, so it never keeps a bot alive that
/// has shut down by itself.
pub struct Watch {
    runtime: Handle,
    target: WeakShardManager,
}

impl Watch {
    /// The shard manager that is watched.
    pub closed spec fn target(&self) -> Mutex<ShardManager> {
        referent(self.target)
    }

    /// The task runtime that the work is to run on.
    pub closed spec fn on(&self) -> Handle {
        self.runtime
    }

    /// A watch on `target`, for work that will run on `runtime`.
    pub fn new(runtime: Handle, target: &Arc<Mutex<ShardManager>>) -> (watch: Self)
        ensures
            watch.target() == **target,
            watch.on() == runtime,
    {
        Watch { runtime, target: downgrade(target) }
    }

    /// A watch on `target`, for work that will run on the task runtime that is
    /// current on the calling thread. Without one there is nothing to run the
    /// work on, and the error is [`SignalError::NoRuntime`].
    pub fn current(target: &Arc<Mutex<ShardManager>>) -> (watch: Result<Self, SignalError>)
        ensures
            watch matches Ok(watch) ==> watch.target() == **target,
            watch matches Err(error) ==> error is NoRuntime,
    {
        Self::from_lookup(try_current(), target)
    }

    /// The task runtime that the work is to run on.
    pub fn runtime(&self) -> (runtime: &Handle)
        ensures
            *runtime == self.on(),
    {
        &self.runtime
    }

    /// Tries to turn the weak reference into a disconnect handle. `None` says
    /// that the shard manager is gone; a handle, if there is one, is for the
    /// shard manager that is watched.
    pub fn resolve(&self) -> (handle: Option<Disconnector>)
        ensures
            handle matches Some(disconnector) ==> disconnector.target() == self.target(),
    {
        Disconnector::from_weak_shard_manager(&self.target)
    }

    /// What comes of looking for the current task runtime: a watch on
    /// `target` for work on the runtime that was found, and
    /// [`SignalError::NoRuntime`] if none was.
    pub fn from_lookup(
        lookup: Result<Handle, tokio::runtime::TryCurrentError>,
        target: &Arc<Mutex<ShardManager>>,
    ) -> (watch: Result<Self, SignalError>)
        ensures
            lookup matches Ok(runtime) ==> (watch matches Ok(watch) && watch.on() == runtime
                && watch.target() == **target),
            lookup is Err ==> (watch matches Err(error) && error is NoRuntime),
    {
        match lookup {
            Ok(runtime) => Ok(Self::new(runtime, target)),
            Err(_) => Err(SignalError::NoRuntime),
        }
    }
}

} // verus!
