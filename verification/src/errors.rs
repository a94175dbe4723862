//! The error taxonomy of the tool.
use vstd::prelude::*;

verus! {

/// Why a run failed.
///
/// `Config`: the runtime directory setting is absent (fatal only for saving
/// the selection record). `Storage`: the record file could not be written.
/// `Registry`: player enumeration or a per-player operation failed, including
/// an empty roster. `Notify`: the notification service rejected the request.
/// `Parse`: the command-line word selects no known command.
#[derive(Clone, Copy, PartialEq, Eq, Structural, Debug)]
pub enum Error {
    Config,
    Storage,
    Registry,
    Notify,
    Parse,
}

/// A fixed human-readable description of each error.
pub open spec fn error_message_of(e: Error) -> Seq<char> {
    match e {
        Error::Config => "runtime directory is not set"@,
        Error::Storage => "could not write the selection record"@,
        Error::Registry => "no player available or player operation failed"@,
        Error::Notify => "notification service rejected the request"@,
        Error::Parse => "unknown or missing command"@,
    }
}

impl Error {
    /// The description shown to the user on a failed run.
    pub fn message(&self) -> (m: &'static str)
        ensures
            m@ == error_message_of(*self),
    {
        match self {
            Error::Config => "runtime directory is not set",
            Error::Storage => "could not write the selection record",
            Error::Registry => "no player available or player operation failed",
            Error::Notify => "notification service rejected the request",
            Error::Parse => "unknown or missing command",
        }
    }
}

} // verus!
