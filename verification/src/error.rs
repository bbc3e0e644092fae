//! Abort categories shared by every component of the execution core.

use vstd::prelude::*;

verus! {

/// The category of an abort, as it is surfaced to the caller of a message.
#[derive(Clone, Copy, Debug, PartialEq, Eq, Structural)]
pub enum ExitCode {
    /// The method number names no method of the receiving actor.
    InvalidMethod,
    /// A charge would have taken the gas used above the gas limit.
    OutOfGas,
    /// The parameter payload does not have the shape the method declares.
    MalformedParameters,
    /// The actor's code identifier is none that this build knows.
    UnsupportedStateVersion,
    /// Referenced data is missing from the store, or does not decode.
    StoreInconsistency,
    /// The actor's own logic rejected the call.
    ActorFailure,
}

/// A categorised abort together with a message for diagnostics.
#[derive(Clone, Debug, PartialEq, Eq)]
pub struct ActorError {
    pub exit_code: ExitCode,
    pub msg: String,
}

impl View for ActorError {
    type V = (ExitCode, Seq<char>);

    open spec fn view(&self) -> (ExitCode, Seq<char>) {
        (self.exit_code, self.msg@)
    }
}

impl ActorError {
    /// Builds an abort of category `exit_code` that carries `msg`.
    pub fn new(exit_code: ExitCode, msg: &str) -> (e: ActorError)
        ensures
            e@ == (exit_code, msg@),
    {
        ActorError { exit_code, msg: msg.to_owned() }
    }

    /// The category of this abort.
    pub fn exit_code(&self) -> (code: ExitCode)
        ensures
            code == self.exit_code,
    {
        self.exit_code
    }

    /// The diagnostic message of this abort.
    pub fn msg(&self) -> (m: &str)
        ensures
            m@ == self.msg@,
    {
        self.msg.as_str()
    }
}

} // verus!
