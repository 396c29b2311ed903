//! The signal bridge: what runs on the signal thread when an interrupt
//! arrives.
use crate::disconnector::Disconnector;
use crate::error::InstallFailure;
use crate::private::SealedHandler;
use crate::runtime::drive;
use crate::runtime::enter;
use crate::runtime::Outside;
use crate::watch::Watch;
use serenity::client::bridge::gateway::ShardManager;
use std::future::Future;
use tokio::sync::Mutex;
use vstd::future::*;
use vstd::prelude::*;

verus! {

/// What the signal layer calls, once for each interrupt: one of the two
/// bridges. The trait is closed to other crates.
pub trait InterruptHandler: SealedHandler {
    /// Whether the handler can take an interrupt.
    spec fn armed(&self) -> bool;

    /// What an interrupt leaves of the handler: `after` is a state that the
    /// handler can be in when it has handled one.
    spec fn leaves(&self, after: &Self) -> bool;

    /// Handles one interrupt on a thread that is outside every task runtime,
    /// and may block it. The handler stays armed, so any number of interrupts
    /// can follow.
    fn on_interrupt(&mut self, outside: &Outside)
        requires
            old(self).armed(),
            outside.sound(),
        ensures
            final(self).armed(),
            old(self).leaves(final(self)),
    ;
}

/// Delivers one interrupt to `handler` if the look at the calling thread gave
/// evidence that it can be blocked, and says whether it did.
pub(crate) fn deliver_if<H: InterruptHandler>(
    handler: &mut H,
    outside: Option<Outside>,
) -> (delivered: bool)
    requires
        old(handler).armed(),
        outside matches Some(evidence) ==> evidence.sound(),
    ensures
        delivered == outside is Some,
        final(handler).armed(),
        delivered ==> old(handler).leaves(final(handler)),
        !delivered ==> *final(handler) == *old(handler),
{
    match outside {
        Some(evidence) => {
            handler.on_interrupt(&evidence);
            true
        },
        None => false,
    }
}

/// Delivers one interrupt to `handler`, if the calling thread can be blocked,
/// and says whether it did. A thread on which a task runtime is current
/// cannot: there the handler is not called and stays as it was. A handler that
/// was called is left as its own [`leaves`](InterruptHandler::leaves) says.
///
/// # Panics
/// A panic of the routine or of its work unwinds through this call, and so
/// does the panic of a timer that is waited on after its runtime has been
/// shut down; the shutdown of the shards waits on such timers.
pub fn deliver<H: InterruptHandler>(handler: &mut H) -> (delivered: bool)
    requires
        old(handler).armed(),
    ensures
        final(handler).armed(),
        delivered ==> old(handler).leaves(final(handler)),
        !delivered ==> *final(handler) == *old(handler),
{
    deliver_if(handler, Outside::check())
}

/// The bridge for a completion routine of the caller's: on each interrupt the
/// routine is called with the disconnect handle, if the shard manager is still
/// there, and the work it returns is run to its end on the task runtime.
pub struct Bridge<R> {
    watch: Watch,
    routine: R,
}

impl<R> Bridge<R> {
    /// The watch that the bridge resolves on each interrupt.
    pub closed spec fn watched(&self) -> Watch {
        self.watch
    }

    /// The shard manager that the bridge watches.
    pub open spec fn target(&self) -> Mutex<ShardManager> {
        self.watched().target()
    }

    /// The completion routine.
    pub closed spec fn routine(&self) -> R {
        self.routine
    }

    /// A bridge from interrupts to `routine`.
    pub fn new(watch: Watch, routine: R) -> (bridge: Self)
        ensures
            bridge.watched() == watch,
            bridge.routine() == routine,
    {
        Bridge { watch, routine }
    }

    /// The watch that the bridge resolves on each interrupt.
    pub fn watch(&self) -> (watch: &Watch)
        ensures
            *watch == self.watched(),
    {
        &self.watch
    }
}

impl<R, F> Bridge<R> where R: FnMut(Option<Disconnector>) -> F, F: Future {
    /// The routine takes every handle, present or absent.
    pub open spec fn accepts_any(&self) -> bool {
        forall|handle: Option<Disconnector>| call_requires(self.routine(), (handle,))
    }

    /// Calls the routine with `handle` and blocks until the work it returned
    /// is complete: what comes back is what that work resolved to. The
    /// runtime is the current one of the thread while the routine is called,
    /// as it is while the work runs.
    pub(crate) fn complete_outside(
        &mut self,
        handle: Option<Disconnector>,
        outside: &Outside,
    ) -> (output: F::Output)
        requires
            old(self).accepts_any(),
            outside.sound(),
        ensures
            exists|work: F| #[trigger]
                call_ensures(old(self).routine(), (handle,), work) && output == work@,
            final(self).accepts_any(),
            final(self).watched() == old(self).watched(),
    {
        assert(call_requires(self.routine(), (handle,)));
        let work = {
            let _context = enter(self.watch.runtime(), outside);
            (self.routine)(handle)
        };
        drive(self.watch.runtime(), outside, work)
    }

    /// Handles one interrupt: resolves the weak reference, then completes the
    /// routine with what came of it. It returns only when the routine's work
    /// is complete.
    pub(crate) fn fire_outside(&mut self, outside: &Outside) -> (output: F::Output)
        requires
            old(self).accepts_any(),
            outside.sound(),
        ensures
            exists|handle: Option<Disconnector>, work: F|
                {
                    &&& handle matches Some(disconnector) ==> disconnector.target() == old(
                        self,
                    ).target()
                    &&& #[trigger] call_ensures(old(self).routine(), (handle,), work)
                    &&& output == work@
                },
            final(self).accepts_any(),
            final(self).watched() == old(self).watched(),
    {
        let handle = self.watch.resolve();
        self.complete_outside(handle, outside)
    }

    /// Completes the routine with `handle` if the look at the calling thread
    /// gave evidence that it can be blocked, and hands `handle` back if it
    /// gave none.
    pub(crate) fn complete_if(
        &mut self,
        handle: Option<Disconnector>,
        outside: Option<Outside>,
    ) -> (done: Result<F::Output, Option<Disconnector>>)
        requires
            old(self).accepts_any(),
            outside matches Some(evidence) ==> evidence.sound(),
        ensures
            done is Ok <==> outside is Some,
            done matches Ok(output) ==> exists|work: F| #[trigger]
                call_ensures(old(self).routine(), (handle,), work) && output == work@,
            done matches Err(unused) ==> unused == handle && *final(self) == *old(self),
            final(self).accepts_any(),
            final(self).watched() == old(self).watched(),
    {
        match outside {
            Some(evidence) => Ok(self.complete_outside(handle, &evidence)),
            None => Err(handle),
        }
    }

    /// Fires the bridge if the look at the calling thread gave evidence that
    /// it can be blocked, and does nothing if it gave none.
    pub(crate) fn fire_if(&mut self, outside: Option<Outside>) -> (done: Option<F::Output>)
        requires
            old(self).accepts_any(),
            outside matches Some(evidence) ==> evidence.sound(),
        ensures
            done is Some <==> outside is Some,
            done matches Some(output) ==> exists|handle: Option<Disconnector>, work: F|
                {
                    &&& handle matches Some(disconnector) ==> disconnector.target() == old(
                        self,
                    ).target()
                    &&& #[trigger] call_ensures(old(self).routine(), (handle,), work)
                    &&& output == work@
                },
            done is None ==> *final(self) == *old(self),
            final(self).accepts_any(),
            final(self).watched() == old(self).watched(),
    {
        match outside {
            Some(evidence) => Some(self.fire_outside(&evidence)),
            None => None,
        }
    }

    /// Calls the routine with `handle` and blocks until the work it returned
    /// is complete: what comes back is what that work resolved to.
    ///
    /// A thread on which a task runtime is current cannot be blocked safely:
    /// there the routine is not called, the bridge stays as it was and
    /// `handle` comes back.
    ///
    /// # Panics
    /// A panic of the routine or of its work unwinds through this call, and
    /// so does the panic of a timer that the work waits on after its runtime
    /// has been shut down.
    pub fn complete(&mut self, handle: Option<Disconnector>) -> (done: Result<
        F::Output,
        Option<Disconnector>,
    >)
        requires
            old(self).accepts_any(),
        ensures
            done matches Ok(output) ==> exists|work: F| #[trigger]
                call_ensures(old(self).routine(), (handle,), work) && output == work@,
            done matches Err(unused) ==> unused == handle && *final(self) == *old(self),
            final(self).accepts_any(),
            final(self).watched() == old(self).watched(),
    {
        self.complete_if(handle, Outside::check())
    }

    /// Handles one interrupt: resolves the weak reference, then completes the
    /// routine with what came of it. It returns only when the routine's work
    /// is complete, with what that work resolved to.
    ///
    /// A thread on which a task runtime is current cannot be blocked safely:
    /// there nothing is resolved, the routine is not called, the bridge stays
    /// as it was and the answer is `None`.
    ///
    /// # Panics
    /// As [`complete`](Self::complete) does.
    pub fn fire(&mut self) -> (done: Option<F::Output>)
        requires
            old(self).accepts_any(),
        ensures
            done matches Some(output) ==> exists|handle: Option<Disconnector>, work: F|
                {
                    &&& handle matches Some(disconnector) ==> disconnector.target() == old(
                        self,
                    ).target()
                    &&& #[trigger] call_ensures(old(self).routine(), (handle,), work)
                    &&& output == work@
                },
            done is None ==> *final(self) == *old(self),
            final(self).accepts_any(),
            final(self).watched() == old(self).watched(),
    {
        self.fire_if(Outside::check())
    }
}

impl<R> SealedHandler for Bridge<R> {

}

impl<R, F> InterruptHandler for Bridge<R> where R: FnMut(Option<Disconnector>) -> F, F: Future {
    open spec fn armed(&self) -> bool {
        self.accepts_any()
    }

    open spec fn leaves(&self, after: &Self) -> bool {
        after.watched() == self.watched()
    }

    /// Fires the bridge and drops what the routine's work resolved to: the
    /// routine has been called, with a handle that is for the watched shard
    /// manager if it is present, and the watch is as it was.
    fn on_interrupt(&mut self, outside: &Outside)
        ensures
            exists|handle: Option<Disconnector>, work: F|
                {
                    &&& handle matches Some(disconnector) ==> disconnector.target() == old(
                        self,
                    ).target()
                    &&& #[trigger] call_ensures(old(self).routine(), (handle,), work)
                },
    {
        let _ = self.fire_outside(outside);
    }
}

/// The bridge with the default completion routine: on each interrupt the bot
/// is disconnected if its shard manager is still there, and nothing is done if
/// it is gone.
pub struct DefaultBridge {
    watch: Watch,
}

impl DefaultBridge {
    /// The watch that the bridge resolves on each interrupt.
    pub closed spec fn watched(&self) -> Watch {
        self.watch
    }

    /// The shard manager that the bridge watches.
    pub open spec fn target(&self) -> Mutex<ShardManager> {
        self.watched().target()
    }

    /// A handle that the bridge can have resolved: none at all, or one for
    /// the shard manager that the bridge watches.
    pub open spec fn resolves_to(&self, handle: Option<Disconnector>) -> bool {
        handle matches Some(disconnector) ==> disconnector.target() == self.target()
    }

    /// A bridge from interrupts to the shutdown of the watched shard manager.
    pub fn new(watch: Watch) -> (bridge: Self)
        ensures
            bridge.watched() == watch,
    {
        DefaultBridge { watch }
    }

    /// The watch that the bridge resolves on each interrupt.
    pub fn watch(&self) -> (watch: &Watch)
        ensures
            *watch == self.watched(),
    {
        &self.watch
    }

    /// The default routine: disconnects with `handle` if there is one, and
    /// says whether it did. It returns only when the shards have stopped.
    ///
    /// A handle that could not be used, because a task runtime is current on
    /// the calling thread, comes back as it was.
    ///
    /// # Panics
    /// The shutdown waits on timers of the watch's runtime. If that runtime
    /// has been shut down, those timers panic and the panic unwinds through
    /// this call.
    pub fn complete(&self, handle: Option<Disconnector>) -> (done: Result<bool, Disconnector>)
        ensures
            handle is None ==> done == Ok::<bool, Disconnector>(false),
            done matches Ok(stopped) ==> stopped == handle.is_some(),
            done matches Err(unused) ==> handle == Some(unused),
    {
        Disconnector::disconnect_some(handle, self.watch.runtime())
    }

    /// Handles one interrupt: resolves the weak reference, then disconnects if
    /// the shard manager was still there. The result says whether it was.
    pub(crate) fn fire_outside(&self, outside: &Outside) -> (stopped: bool)
        requires
            outside.sound(),
        ensures
            exists|handle: Option<Disconnector>|
                self.resolves_to(handle) && stopped == #[trigger] handle.is_some(),
    {
        let handle = self.watch.resolve();
        Disconnector::stop_some(handle, self.watch.runtime(), outside)
    }

    /// Fires the bridge if the look at the calling thread gave evidence that
    /// it can be blocked, and does nothing if it gave none.
    pub(crate) fn fire_if(&self, outside: Option<Outside>) -> (done: Option<bool>)
        requires
            outside matches Some(evidence) ==> evidence.sound(),
        ensures
            done is Some <==> outside is Some,
            done matches Some(stopped) ==> exists|handle: Option<Disconnector>|
                self.resolves_to(handle) && stopped == #[trigger] handle.is_some(),
    {
        match outside {
            Some(evidence) => Some(self.fire_outside(&evidence)),
            None => None,
        }
    }

    /// Handles one interrupt: resolves the weak reference, then disconnects if
    /// the shard manager was still there. The result says whether it was.
    ///
    /// A thread on which a task runtime is current cannot be blocked safely:
    /// there nothing is resolved or stopped and the answer is `None`.
    ///
    /// # Panics
    /// As [`complete`](Self::complete) does.
    pub fn fire(&self) -> (done: Option<bool>)
        ensures
            done matches Some(stopped) ==> exists|handle: Option<Disconnector>|
                self.resolves_to(handle) && stopped == #[trigger] handle.is_some(),
    {
        self.fire_if(Outside::check())
    }
}

impl SealedHandler for DefaultBridge {

}

impl InterruptHandler for DefaultBridge {
    open spec fn armed(&self) -> bool {
        true
    }

    open spec fn leaves(&self, after: &Self) -> bool {
        *after == *self
    }

    /// Fires the bridge and drops the answer. The bridge itself is left as it
    /// was: all that an interrupt changes is the shard manager.
    fn on_interrupt(&mut self, outside: &Outside) {
        let _ = self.fire_outside(outside);
    }
}

/// `ctrlc::set_handler`: installs `handler` as the process's handler for
/// Ctrl+C and starts the thread that delivers each interrupt to it. It fails
/// with `MultipleHandlers` when a handler was installed through it before,
/// and with a system error when the operating system refuses; then `handler`
/// is dropped without a call. The error comes back variant for variant.
#[verifier::external_body]
pub(crate) fn install<H: InterruptHandler + Send + 'static>(handler: H) -> (installed: Result<
    (),
    InstallFailure,
>)
    requires
        handler.armed(),
{
    let mut handler = handler;
    match ctrlc::set_handler(move || { deliver(&mut handler); }) {
        Ok(()) => Ok(()),
        Err(ctrlc::Error::NoSuchSignal(_)) => Err(InstallFailure::NoSuchSignal),
        Err(ctrlc::Error::MultipleHandlers) => Err(InstallFailure::MultipleHandlers),
        Err(ctrlc::Error::System(cause)) => Err(InstallFailure::System(cause)),
    }
}

} // verus!
