//! Error taxonomy shared by the authentication and session layers.

use vstd::prelude::*;

verus! {

/// An error reported by the authentication module.
///
/// Two classes drive the retry policy; every other class is carried by its
/// numeric code and is always fatal.
#[derive(Clone, Copy, Debug, PartialEq, Eq, Structural)]
pub enum ModuleError {
    /// The credential that was offered did not match.
    CredentialMismatch,
    /// The module itself allows no further attempts.
    AttemptsExhausted,
    /// Any other error class, identified by the module's code.
    Other(i32),
}

/// Why an invocation failed.
#[derive(Debug, PartialEq, Eq)]
pub enum Error {
    /// Authentication was given up after this many attempts.
    AuthenticationExhausted(u32),
    /// The module failed outside the retry policy; its error is kept as is.
    Module(ModuleError),
    /// Account validation or a forced credential change was refused.
    AccountOrTokenRejected(ModuleError),
    /// The privileged session could not be opened.
    SessionOpenFailed(ModuleError),
    /// The command of this name could not be resolved.
    CommandNotFound(String),
    /// The command of this name was resolved but cannot be invoked.
    InvalidCommand(String),
    /// Any other failure while running the command, by its OS error code.
    Execution(i32),
}

/// How the command ended.
#[derive(Clone, Copy, Debug, PartialEq, Eq, Structural)]
pub enum ExitReason {
    /// It exited with this status.
    Code(i32),
    /// It was terminated by this signal.
    Signal(i32),
}

/// Exit status for a command that was resolved but cannot be invoked.
pub const EXIT_INVALID_COMMAND: i32 = 126;

/// Exit status for a command that could not be found.
pub const EXIT_COMMAND_NOT_FOUND: i32 = 127;

/// Exit status for every other failure.
pub const EXIT_FAILURE: i32 = 1;

/// The exit status that reports `error`, as a specification.
pub open spec fn exit_status_of(error: Error) -> int {
    match error {
        Error::CommandNotFound(_) => 127,
        Error::InvalidCommand(_) => 126,
        _ => 1,
    }
}

impl Clone for Error {
    fn clone(&self) -> (out: Error)
        ensures
            out == *self,
    {
        match self {
            Error::AuthenticationExhausted(attempts) => Error::AuthenticationExhausted(*attempts),
            Error::Module(e) => Error::Module(*e),
            Error::AccountOrTokenRejected(e) => Error::AccountOrTokenRejected(*e),
            Error::SessionOpenFailed(e) => Error::SessionOpenFailed(*e),
            Error::CommandNotFound(command) => Error::CommandNotFound(command.clone()),
            Error::InvalidCommand(command) => Error::InvalidCommand(command.clone()),
            Error::Execution(code) => Error::Execution(*code),
        }
    }
}

impl Error {
    /// The exit status with which the process reports this error: 127 for a
    /// command that was not found, 126 for one that cannot be invoked, 1 for
    /// anything else.
    pub fn exit_status(&self) -> (status: i32)
        ensures
            status == exit_status_of(*self),
    {
        match self {
            Error::CommandNotFound(_) => EXIT_COMMAND_NOT_FOUND,
            Error::InvalidCommand(_) => EXIT_INVALID_COMMAND,
            _ => EXIT_FAILURE,
        }
    }
}

} // verus!
