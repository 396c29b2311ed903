//! Why a registration can fail.
use vstd::prelude::*;

verus! {

/// `std::io::Error`, as an opaque value.
#[verifier::external_type_specification]
#[verifier::external_body]
pub struct ExIoError(std::io::Error);

/// What the signal layer reports when it cannot install a handler: the three
/// variants of `ctrlc::Error`.
#[derive(Debug)]
pub enum InstallFailure {
    /// The signal is unknown to the system.
    NoSuchSignal,
    /// A handler is installed in this process already.
    MultipleHandlers,
    /// The operating system failed the request.
    System(std::io::Error),
}

/// The ways in which registering the interrupt handler fails.
#[derive(Debug)]
pub enum SignalError {
    /// The process has its interrupt handler already; the one that was
    /// installed first stays.
    AlreadyRegistered,
    /// No task runtime is current on the calling thread, so there is nothing
    /// to run the completion routine on.
    NoRuntime,
    /// The signal is unknown to the system.
    NoSuchSignal,
    /// The operating system failed the request.
    System(std::io::Error),
}

impl SignalError {
    /// What the error says to a reader, as characters.
    pub open spec fn description(self) -> Seq<char> {
        match self {
            SignalError::AlreadyRegistered => "Ctrl-C signal handler already registered"@,
            SignalError::NoRuntime => "No task runtime to run the Ctrl-C handler on"@,
            SignalError::NoSuchSignal => "Signal could not be found from the system"@,
            SignalError::System(_) => "Unexpected system error"@,
        }
    }

    /// What the error says to a reader.
    pub fn describe(&self) -> (text: &'static str)
        ensures
            text@ == self.description(),
    {
        match self {
            SignalError::AlreadyRegistered => "Ctrl-C signal handler already registered",
            SignalError::NoRuntime => "No task runtime to run the Ctrl-C handler on",
            SignalError::NoSuchSignal => "Signal could not be found from the system",
            SignalError::System(_) => "Unexpected system error",
        }
    }

    /// The error that a failure of the signal layer is reported as.
    pub open spec fn of_failure(failure: InstallFailure) -> SignalError {
        match failure {
            InstallFailure::NoSuchSignal => SignalError::NoSuchSignal,
            InstallFailure::MultipleHandlers => SignalError::AlreadyRegistered,
            InstallFailure::System(cause) => SignalError::System(cause),
        }
    }

    /// Reports a failure of the signal layer as a registration error, keeping
    /// its payload.
    pub fn from_failure(failure: InstallFailure) -> (error: SignalError)
        ensures
            error == Self::of_failure(failure),
    {
        match failure {
            InstallFailure::NoSuchSignal => SignalError::NoSuchSignal,
            InstallFailure::MultipleHandlers => SignalError::AlreadyRegistered,
            InstallFailure::System(cause) => SignalError::System(cause),
        }
    }
}

} // verus!
