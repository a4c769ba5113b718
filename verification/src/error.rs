//! The errors that the bridge hands to a bus caller.

use vstd::prelude::*;
use vstd::string::StringExecFns;

verus! {

/// What went wrong, as a caller can test it.
#[derive(Clone, Copy, Debug, PartialEq, Eq, Structural)]
pub enum ErrorKind {
    /// The payload is malformed, lacks a field or holds an unexpected one.
    InvalidParams,
    /// The method name is not one of the bridge's.
    MethodNotFound,
    /// The command needs the debug mode, which is off.
    AccessDenied,
    /// A query or an external process took longer than its bound.
    Timeout,
    /// A command could not be handed over, or its reply never came.
    Internal,
    /// An external command could not be run or ended with an exit code that
    /// is not acceptable.
    ExternalCommandFailed,
}

impl ErrorKind {
    /// The code by which a kind is told to a bus caller.
    pub open spec fn spec_code(self) -> int {
        match self {
            ErrorKind::InvalidParams => -32602,
            ErrorKind::MethodNotFound => -32601,
            ErrorKind::AccessDenied => -32002,
            ErrorKind::Timeout => -32008,
            ErrorKind::Internal => -32603,
            ErrorKind::ExternalCommandFailed => -32010,
        }
    }

    /// The code by which this kind is told to a bus caller.
    pub fn code(self) -> (code: i16)
        ensures
            code == self.spec_code(),
    {
        match self {
            ErrorKind::InvalidParams => -32602,
            ErrorKind::MethodNotFound => -32601,
            ErrorKind::AccessDenied => -32002,
            ErrorKind::Timeout => -32008,
            ErrorKind::Internal => -32603,
            ErrorKind::ExternalCommandFailed => -32010,
        }
    }
}

/// No two kinds are told by the same code.
pub proof fn lemma_codes_tell_kinds_apart(a: ErrorKind, b: ErrorKind)
    ensures
        a.spec_code() == b.spec_code() ==> a == b,
{
}

/// An error: its kind and a detail for a human reader.
#[derive(Clone, Debug, PartialEq, Eq)]
pub struct Error {
    pub kind: ErrorKind,
    pub message: String,
}

/// An error as contracts speak of it.
pub struct ErrorView {
    pub kind: ErrorKind,
    pub message: Seq<char>,
}

impl View for Error {
    type V = ErrorView;

    open spec fn view(&self) -> ErrorView {
        ErrorView { kind: self.kind, message: self.message@ }
    }
}

impl Error {
    /// An error of the given kind with the given detail.
    pub fn new(kind: ErrorKind, message: &str) -> (error: Error)
        ensures
            error@ == (ErrorView { kind, message: message@ }),
    {
        Error { kind, message: String::from_str(message) }
    }

    /// The detail of this error, if it has one.
    pub fn detail(&self) -> (detail: Option<&str>)
        ensures
            self.message@.len() == 0 ==> detail is None,
            self.message@.len() > 0 ==> detail is Some && detail->0@ == self.message@,
    {
        if self.message.as_str().is_empty() {
            None
        } else {
            Some(self.message.as_str())
        }
    }

    /// An error of the given kind without detail.
    pub fn bare(kind: ErrorKind) -> (error: Error)
        ensures
            error@ == (ErrorView { kind, message: Seq::empty() }),
    {
        Error { kind, message: String::new() }
    }
}

} // verus!
