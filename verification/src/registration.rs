//! Registering the interrupt handler.
//!
//! A process has one interrupt handler. The signal layer keeps that rule by
//! itself, for the whole process; a [`Registrar`] keeps it in a value that the
//! caller owns, so that what a second registration returns can be said
//! without looking at the process.
use crate::bridge::install;
use crate::bridge::Bridge;
use crate::bridge::DefaultBridge;
use crate::bridge::InterruptHandler;
use crate::disconnector::Disconnector;
use crate::error::InstallFailure;
use crate::error::SignalError;
use crate::target::client_target;
use crate::target::shard_manager;
use crate::watch::Watch;
use serenity::client::bridge::gateway::ShardManager;
use serenity::Client;
use std::future::Future;
use std::sync::Arc;
use tokio::sync::Mutex;
use vstd::prelude::*;

verus! {

/// What a registration returns for each report of the signal layer: success
/// for success, and for a failure the error that it is reported as.
pub open spec fn settled(installed: Result<(), InstallFailure>) -> Result<(), SignalError> {
    match installed {
        Ok(()) => Ok(()),
        Err(failure) => Err(SignalError::of_failure(failure)),
    }
}

/// Turns the report of the signal layer into the result of a registration.
pub fn settle(installed: Result<(), InstallFailure>) -> (registered: Result<(), SignalError>)
    ensures
        registered == settled(installed),
{
    match installed {
        Ok(()) => Ok(()),
        Err(failure) => Err(SignalError::from_failure(failure)),
    }
}

/// Installs `handler` as the interrupt handler of the process.
///
/// Whether this succeeds is for the signal layer and the operating system to
/// decide. A failure is one of theirs: never [`SignalError::NoRuntime`].
pub fn install_handler<H: InterruptHandler + Send + 'static>(handler: H) -> (registered: Result<
    (),
    SignalError,
>)
    requires
        handler.armed(),
    ensures
        registered matches Err(error) ==> error !is NoRuntime,
{
    settle(install(handler))
}

/// How the result of a registration comes of the look for the current
/// runtime. If the look failed, its error is the result and the signal layer
/// is not asked. If it gave a watch, the watch is on `target`, and the result
/// is the signal layer's: a failure, if it is one, is not
/// [`SignalError::NoRuntime`].
pub open spec fn comes_of(
    watch: Result<Watch, SignalError>,
    target: Mutex<ShardManager>,
    registered: Result<(), SignalError>,
) -> bool {
    match watch {
        Ok(found) => found.target() == target && (registered matches Err(error) ==> error
            !is NoRuntime),
        Err(error) => error is NoRuntime && registered == Err::<(), SignalError>(error),
    }
}

/// Registers a handler that runs `routine` on the watch that the look for the
/// current runtime gave. If the look failed, nothing is installed and its
/// error is returned.
pub fn register_with_on<F: Future + Send, R: (FnMut(Option<Disconnector>) -> F) + Send + 'static>(
    watch: Result<Watch, SignalError>,
    routine: R,
) -> (registered: Result<(), SignalError>)
    requires
        forall|handle: Option<Disconnector>| call_requires(routine, (handle,)),
    ensures
        watch matches Err(error) ==> registered == Err::<(), SignalError>(error),
        watch is Ok ==> (registered matches Err(error) ==> error !is NoRuntime),
{
    match watch {
        Ok(watch) => install_handler(Bridge::new(watch, routine)),
        Err(error) => Err(error),
    }
}

/// Registers the default handler on the watch that the look for the current
/// runtime gave. If the look failed, nothing is installed and its error is
/// returned.
pub fn register_on(watch: Result<Watch, SignalError>) -> (registered: Result<(), SignalError>)
    ensures
        watch matches Err(error) ==> registered == Err::<(), SignalError>(error),
        watch is Ok ==> (registered matches Err(error) ==> error !is NoRuntime),
{
    match watch {
        Ok(watch) => install_handler(DefaultBridge::new(watch)),
        Err(error) => Err(error),
    }
}

/// Registers a Ctrl+C handler that runs `routine` with a disconnect handle for
/// `target`, if `target` is still there when the interrupt arrives.
///
/// Only a weak reference to `target` is kept. The routine runs on the task
/// runtime that is current on the calling thread; without one the call fails
/// with [`SignalError::NoRuntime`] and installs nothing.
pub fn register_with<F: Future + Send, R: (FnMut(Option<Disconnector>) -> F) + Send + 'static>(
    target: &Arc<Mutex<ShardManager>>,
    routine: R,
) -> (registered: Result<(), SignalError>)
    requires
        forall|handle: Option<Disconnector>| call_requires(routine, (handle,)),
    ensures
        exists|watch: Result<Watch, SignalError>| #[trigger] comes_of(watch, **target, registered),
{
    let watch = Watch::current(target);
    let registered = register_with_on(watch, routine);
    assert(comes_of(watch, **target, registered));
    registered
}

/// Registers a Ctrl+C handler that disconnects `target`, if `target` is still
/// there when the interrupt arrives.
///
/// Only a weak reference to `target` is kept. The shutdown runs on the task
/// runtime that is current on the calling thread; without one the call fails
/// with [`SignalError::NoRuntime`] and installs nothing.
pub fn register(target: &Arc<Mutex<ShardManager>>) -> (registered: Result<(), SignalError>)
    ensures
        exists|watch: Result<Watch, SignalError>| #[trigger] comes_of(watch, **target, registered),
{
    let watch = Watch::current(target);
    let registered = register_on(watch);
    assert(comes_of(watch, **target, registered));
    registered
}

/// Register a Ctrl+C handler that can disconnect the bot.
///
/// If you just want to disconnect the bot if it's running use [`ctrlc`]
/// instead. This function is useful if you want the Ctrl+C handler to do more
/// than just disconnect the bot.
///
/// This function takes an [`FnMut`] that will be the Ctrl+C handler: it takes
/// an [`Option`] which will have [`Some`] [`Disconnector`] if the bot is still
/// running. The work it returns is run to its end before the handler returns.
///
/// # Warning
/// This must be called from the bot's Tokio runtime instance; elsewhere it
/// fails with [`SignalError::NoRuntime`] and installs nothing.
pub fn ctrlc_with<F: Future + Send>(
    client: &Client,
    f: impl (FnMut(Option<Disconnector>) -> F) + Send + 'static,
) -> (registered: Result<(), SignalError>)
    requires
        forall|handle: Option<Disconnector>| call_requires(f, (handle,)),
    ensures
        exists|watch: Result<Watch, SignalError>| #[trigger]
            comes_of(watch, client_target(*client), registered),
{
    register_with(shard_manager(client), f)
}

/// Register a Ctrl+C handler that will disconnect the bot.
///
/// If you want to customize the handler see [`ctrlc_with`].
///
/// # Warning
/// This must be called from the bot's Tokio runtime instance; elsewhere it
/// fails with [`SignalError::NoRuntime`] and installs nothing.
pub fn ctrlc(client: &Client) -> (registered: Result<(), SignalError>)
    ensures
        exists|watch: Result<Watch, SignalError>| #[trigger]
            comes_of(watch, client_target(*client), registered),
{
    register(shard_manager(client))
}

/// The one-time guard of the registration, as a value: it remembers whether a
/// handler has been installed through it, and refuses every attempt after the
/// first that succeeded without handing anything to the signal layer.
///
/// Keep one for the process.
#[derive(Debug)]
pub struct Registrar {
    registered: bool,
}

impl Registrar {
    /// Whether a handler has been installed through this registrar.
    pub closed spec fn is_registered(&self) -> bool {
        self.registered
    }

    /// What an attempt returns when the registrar is in state `registered`
    /// and the signal layer, if it is asked, answers `attempt`.
    pub open spec fn outcome(registered: bool, attempt: Result<(), SignalError>) -> Result<
        (),
        SignalError,
    > {
        if registered {
            Err(SignalError::AlreadyRegistered)
        } else {
            attempt
        }
    }

    /// The state of the registrar after that attempt.
    pub open spec fn next(registered: bool, attempt: Result<(), SignalError>) -> bool {
        registered || attempt is Ok
    }

    /// A registrar through which nothing has been installed.
    pub fn new() -> (registrar: Self)
        ensures
            !registrar.is_registered(),
    {
        Registrar { registered: false }
    }

    /// Whether a handler has been installed through this registrar.
    pub fn registered(&self) -> (registered: bool)
        ensures
            registered == self.is_registered(),
    {
        self.registered
    }

    /// Takes note of an attempt that the signal layer answered with
    /// `attempt`, and says what the caller is told.
    pub fn record(&mut self, attempt: Result<(), SignalError>) -> (outcome: Result<
        (),
        SignalError,
    >)
        ensures
            outcome == Self::outcome(old(self).is_registered(), attempt),
            final(self).is_registered() == Self::next(old(self).is_registered(), attempt),
    {
        if self.registered {
            Err(SignalError::AlreadyRegistered)
        } else {
            if attempt.is_ok() {
                self.registered = true;
            }
            attempt
        }
    }

    /// Installs `handler` as the interrupt handler of the process, unless a
    /// handler has been installed through this registrar before: then the
    /// attempt fails with [`SignalError::AlreadyRegistered`], the signal layer
    /// is not asked, and the handler that is installed stays as it is.
    pub fn install_handler<H: InterruptHandler + Send + 'static>(
        &mut self,
        handler: H,
    ) -> (outcome: Result<(), SignalError>)
        requires
            handler.armed(),
        ensures
            exists|attempt: Result<(), SignalError>|
                {
                    &&& outcome == #[trigger] Self::outcome(old(self).is_registered(), attempt)
                    &&& final(self).is_registered() == Self::next(
                        old(self).is_registered(),
                        attempt,
                    )
                },
    {
        if self.registered {
            // Nothing is asked of the signal layer; its answer would not count.
            self.record(Ok(()))
        } else {
            self.record(install_handler(handler))
        }
    }

    /// Registers a Ctrl+C handler that runs `routine` with a disconnect handle
    /// for `target`, as [`register_with`] does, unless a handler has been
    /// installed through this registrar before: then the attempt fails with
    /// [`SignalError::AlreadyRegistered`], nothing is asked of the runtime or
    /// of the signal layer, and the handler that is installed stays as it is.
    pub fn register_with<
        F: Future + Send,
        R: (FnMut(Option<Disconnector>) -> F) + Send + 'static,
    >(&mut self, target: &Arc<Mutex<ShardManager>>, routine: R) -> (outcome: Result<
        (),
        SignalError,
    >)
        requires
            forall|handle: Option<Disconnector>| call_requires(routine, (handle,)),
        ensures
            exists|attempt: Result<(), SignalError>|
                {
                    &&& outcome == #[trigger] Self::outcome(old(self).is_registered(), attempt)
                    &&& final(self).is_registered() == Self::next(
                        old(self).is_registered(),
                        attempt,
                    )
                },
    {
        if self.registered {
            // Nothing is asked of the signal layer; its answer would not count.
            self.record(Ok(()))
        } else {
            self.record(register_with(target, routine))
        }
    }

    /// Registers a Ctrl+C handler that disconnects `target`, as [`register`]
    /// does, unless a handler has been installed through this registrar
    /// before: then the attempt fails with
    /// [`SignalError::AlreadyRegistered`], nothing is asked of the runtime or
    /// of the signal layer, and the handler that is installed stays as it is.
    pub fn register(&mut self, target: &Arc<Mutex<ShardManager>>) -> (outcome: Result<
        (),
        SignalError,
    >)
        ensures
            exists|attempt: Result<(), SignalError>|
                {
                    &&& outcome == #[trigger] Self::outcome(old(self).is_registered(), attempt)
                    &&& final(self).is_registered() == Self::next(
                        old(self).is_registered(),
                        attempt,
                    )
                },
    {
        if self.registered {
            // Nothing is asked of the signal layer; its answer would not count.
            self.record(Ok(()))
        } else {
            self.record(register(target))
        }
    }

    /// Registration happens once, whichever of the registrar's functions makes
    /// the attempts. When the first attempt through a new registrar succeeds,
    /// the second returns
    /// [`SignalError::AlreadyRegistered`], whatever the signal layer would
    /// have answered it, and the registrar is registered as before: the first
    /// registration stays.
    pub proof fn lemma_second_registration_is_refused(
        first: Result<(), SignalError>,
        second: Result<(), SignalError>,
    )
        requires
            first is Ok,
        ensures
            Self::outcome(false, first) is Ok,
            Self::next(false, first),
            Self::outcome(Self::next(false, first), second) == Err::<(), SignalError>(
                SignalError::AlreadyRegistered,
            ),
            Self::next(Self::next(false, first), second),
    {
    }
}

} // verus!
