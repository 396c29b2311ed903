//! The disconnect handle: a one-shot capability to stop the bot.
use crate::runtime::drive;
use crate::runtime::Outside;
use crate::target::referent;
use crate::target::upgrade;
use crate::target::WeakShardManager;
use serenity::client::bridge::gateway::ShardManager;
use std::future::Future;
use std::sync::Arc;
use tokio::runtime::Handle;
use tokio::sync::Mutex;
use tokio::sync::MutexGuard;
use vstd::prelude::*;

verus! {

/// A procedure that [disconnects](Self::disconnect) the bot.
///
/// It wraps one strong reference to the shard manager, taken at the moment an
/// interrupt arrived. Disconnecting consumes it, so one handle stops the bot
/// at most once.
#[derive(Debug)]
pub struct Disconnector {
    shard_manager: Arc<Mutex<ShardManager>>,
}

/// `Mutex::lock` on the shard manager: the work of taking the lock. It
/// resolves to the guard, which holds the lock for as long as it lives.
#[verifier::external_body]
fn lock<'a>(target: &'a Arc<Mutex<ShardManager>>) -> (work: impl Future<
    Output = MutexGuard<'a, ShardManager>,
>) {
    target.lock()
}

/// `ShardManager::shutdown_all`: the work of stopping the shards. Every shard
/// runner that the manager knows of is told to shut down and is waited for,
/// then the shard queuer and the monitor are told that the manager is done.
/// With no runner left the work is over at once.
#[verifier::external_body]
fn shutdown_all<'a>(manager: &'a mut MutexGuard<'_, ShardManager>) -> (work: impl Future<
    Output = (),
> + 'a) {
    manager.shutdown_all()
}

impl Disconnector {
    /// The shard manager that this handle stops.
    pub closed spec fn target(&self) -> Mutex<ShardManager> {
        *self.shard_manager
    }

    /// Wraps the outcome of an upgrade: a handle exactly when a strong
    /// reference was obtained, and then for that shard manager.
    pub fn from_upgrade(strong: Option<Arc<Mutex<ShardManager>>>) -> (handle: Option<Self>)
        ensures
            handle is Some <==> strong is Some,
            handle matches Some(disconnector) ==> disconnector.target() == *strong.unwrap(),
    {
        match strong {
            Some(shard_manager) => Some(Disconnector { shard_manager }),
            None => None,
        }
    }

    /// Creates a [`Disconnector`] [`Option`] from a weak shard manager.
    ///
    /// Returns [`None`] if the shard manager has been already dropped. Whether
    /// it has is for its owners to decide; a handle that is returned stops the
    /// referent of `shard_manager` and nothing else.
    pub(crate) fn from_weak_shard_manager(shard_manager: &WeakShardManager) -> (handle: Option<
        Self,
    >)
        ensures
            handle matches Some(disconnector) ==> disconnector.target() == referent(
                *shard_manager,
            ),
    {
        Self::from_upgrade(upgrade(shard_manager))
    }

    /// Takes the shard manager's lock, shuts all shards down and lets the
    /// lock go, blocking the calling thread until the shards have stopped.
    pub(crate) fn stop(self, runtime: &Handle, outside: &Outside)
        requires
            outside.sound(),
    {
        let mut guard = drive(runtime, outside, lock(&self.shard_manager));
        drive(runtime, outside, shutdown_all(&mut guard));
    }

    /// Stops the bot when there is [`Some`] [`Disconnector`], and says whether
    /// it did.
    pub(crate) fn stop_some(
        disconnector: Option<Self>,
        runtime: &Handle,
        outside: &Outside,
    ) -> (stopped: bool)
        requires
            outside.sound(),
        ensures
            stopped == disconnector.is_some(),
    {
        match disconnector {
            Some(disconnector) => {
                disconnector.stop(runtime, outside);
                true
            },
            None => false,
        }
    }

    /// Disconnects if the look at the calling thread gave evidence that it can
    /// be blocked, and hands the handle back if it gave none.
    pub(crate) fn disconnect_if(self, runtime: &Handle, outside: Option<Outside>) -> (done: Result<
        (),
        Self,
    >)
        requires
            outside matches Some(evidence) ==> evidence.sound(),
        ensures
            done is Ok <==> outside is Some,
            done matches Err(disconnector) ==> disconnector == self,
    {
        match outside {
            Some(evidence) => {
                self.stop(runtime, &evidence);
                Ok(())
            },
            None => Err(self),
        }
    }

    /// Disconnects when there is a handle and the look at the calling thread
    /// gave evidence that it can be blocked. Without a handle there is
    /// nothing to do; a handle without evidence is handed back.
    pub(crate) fn disconnect_some_if(
        disconnector: Option<Self>,
        runtime: &Handle,
        outside: Option<Outside>,
    ) -> (done: Result<bool, Self>)
        requires
            outside matches Some(evidence) ==> evidence.sound(),
        ensures
            done is Ok <==> (disconnector is None || outside is Some),
            done matches Ok(stopped) ==> stopped == disconnector.is_some(),
            done matches Err(unused) ==> disconnector == Some(unused),
    {
        match disconnector {
            Some(disconnector) => match disconnector.disconnect_if(runtime, outside) {
                Ok(()) => Ok(true),
                Err(unused) => Err(unused),
            },
            None => Ok(false),
        }
    }

    /// Disconnects the bot: takes the shard manager's lock, shuts all shards
    /// down and lets the lock go.
    ///
    /// The calling thread is blocked until the shards have stopped. A thread
    /// on which a task runtime is current cannot be blocked safely: there
    /// nothing is done and the handle comes back as it was. Inside a task,
    /// take the shard manager with
    /// [`into_shard_manager`](Self::into_shard_manager) and await its lock.
    ///
    /// # Panics
    /// The shutdown waits on timers of `runtime`. If `runtime` has been shut
    /// down, those timers panic and the panic unwinds through this call.
    pub fn disconnect(self, runtime: &Handle) -> (done: Result<(), Self>)
        ensures
            done matches Err(disconnector) ==> disconnector == self,
    {
        self.disconnect_if(runtime, Outside::check())
    }

    /// Disconnects the bot when there is [`Some`] [`Disconnector`], and says
    /// whether it did. Without a handle there is nothing to do and the answer
    /// is `Ok(false)`; a handle that could not be used, because a task
    /// runtime is current on the calling thread, comes back as it was.
    ///
    /// # Panics
    /// As [`disconnect`](Self::disconnect) does, when `runtime` has been shut
    /// down.
    pub fn disconnect_some(disconnector: Option<Self>, runtime: &Handle) -> (done: Result<
        bool,
        Self,
    >)
        ensures
            disconnector is None ==> done == Ok::<bool, Self>(false),
            done matches Ok(stopped) ==> stopped == disconnector.is_some(),
            done matches Err(unused) ==> disconnector == Some(unused),
    {
        Self::disconnect_some_if(disconnector, runtime, Outside::check())
    }

    /// Gives up the handle for the strong reference inside it.
    pub fn into_shard_manager(self) -> (target: Arc<Mutex<ShardManager>>)
        ensures
            *target == self.target(),
    {
        self.shard_manager
    }
}

} // verus!
