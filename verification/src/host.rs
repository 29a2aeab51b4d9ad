//! A model of the host runtime's shared error-reporting channel.
//!
//! Every failure this module can signal is recorded here: the exec handler's
//! import failure, and the exported function's argument-decode failure. The
//! channel holds at most one pending error; the host surfaces it to whoever
//! triggered the failing call.

use vstd::prelude::*;

verus! {

/// The two kinds of error this module ever records.
#[derive(Clone, Copy, Debug, PartialEq, Eq, Structural)]
pub enum ErrorKind {
    /// A required host capability failed to import during module execution.
    ImportError,
    /// The exported function's arguments could not be decoded as two integers.
    TypeError,
}

/// An error recorded on the host's error-reporting channel.
#[derive(Clone, Debug)]
pub struct RecordedError {
    pub kind: ErrorKind,
    pub message: String,
}

/// The host's shared error-reporting channel: at most one pending error,
/// visible to the caller after the failing operation returns.
#[derive(Clone, Debug)]
pub struct ErrorChannel {
    pub pending: Option<RecordedError>,
}

impl ErrorChannel {
    /// No error is pending.
    pub open spec fn is_clear(self) -> bool {
        self.pending is None
    }

    /// An error of the given kind, with exactly the given message, is pending.
    pub open spec fn holds_error(self, kind: ErrorKind, message: Seq<char>) -> bool {
        &&& self.pending matches Some(e)
        &&& e.kind == kind
        &&& e.message@ == message
    }

    /// A fresh channel with no pending error, as the host hands it over.
    pub fn new() -> (c: ErrorChannel)
        ensures
            c.is_clear(),
    {
        ErrorChannel { pending: None }
    }

    /// Record an error, replacing any pending one, as the host's channel does.
    pub fn record(&mut self, kind: ErrorKind, message: &str)
        ensures
            final(self).holds_error(kind, message@),
    {
        self.pending = Some(RecordedError { kind, message: message.to_owned() });
    }
}

} // verus!
