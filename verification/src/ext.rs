//! Method syntax for registering on a client.
use crate::disconnector::Disconnector;
use crate::error::SignalError;
use crate::private::Sealed;
use crate::registration::comes_of;
use crate::registration::ctrlc;
use crate::registration::ctrlc_with;
use crate::target::client_target;
use crate::watch::Watch;
use serenity::Client;
use std::future::Future;
use vstd::prelude::*;

verus! {

/// Provides extension methods for [`Client`].
pub trait Ext: Sealed + Sized {
    /// Extension method for [`ctrlc`](crate::ctrlc): on success the client
    /// comes back as it went in.
    fn ctrlc(self) -> (registered: Result<Self, SignalError>)
        ensures
            registered matches Ok(client) ==> client == self,
    ;

    /// Extension method for [`ctrlc_with`](crate::ctrlc_with): on success the
    /// client comes back as it went in.
    fn ctrlc_with<F, R>(self, f: R) -> (registered: Result<Self, SignalError>) where
        F: Future + Send,
        R: (FnMut(Option<Disconnector>) -> F) + Send + 'static,

        requires
            forall|handle: Option<Disconnector>| call_requires(f, (handle,)),
        ensures
            registered matches Ok(client) ==> client == self,
    ;
}

impl Ext for Client {
    fn ctrlc(self) -> (registered: Result<Self, SignalError>)
        ensures
            exists|watch: Result<Watch, SignalError>, outcome: Result<(), SignalError>|
                #[trigger] comes_of(watch, client_target(self), outcome) && registered
                    == handed_back(self, outcome),
    {
        let outcome = ctrlc(&self);
        hand_back(self, outcome)
    }

    fn ctrlc_with<F, R>(self, f: R) -> (registered: Result<Self, SignalError>) where
        F: Future + Send,
        R: (FnMut(Option<Disconnector>) -> F) + Send + 'static,

        ensures
            exists|watch: Result<Watch, SignalError>, outcome: Result<(), SignalError>|
                #[trigger] comes_of(watch, client_target(self), outcome) && registered
                    == handed_back(self, outcome),
    {
        let outcome = ctrlc_with(&self, f);
        hand_back(self, outcome)
    }
}

/// What an extension method returns for each outcome of the registration: the
/// value it was called on if the registration succeeded, and the error of the
/// registration if it failed.
pub open spec fn handed_back<T>(value: T, outcome: Result<(), SignalError>) -> Result<
    T,
    SignalError,
> {
    match outcome {
        Ok(()) => Ok(value),
        Err(error) => Err(error),
    }
}

/// Hands `value` back if the registration succeeded, and its error if not.
pub fn hand_back<T>(value: T, outcome: Result<(), SignalError>) -> (registered: Result<
    T,
    SignalError,
>)
    ensures
        registered == handed_back(value, outcome),
{
    match outcome {
        Ok(()) => Ok(value),
        Err(error) => Err(error),
    }
}

} // verus!
