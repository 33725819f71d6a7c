//! The errors of the engine.

use vstd::prelude::*;
use vstd::string::*;

verus! {

/// The kinds of failure, from the most harmless to the most severe.
#[derive(Debug, Clone, Copy, PartialEq, Eq, Structural)]
pub enum ErrorKind {
    /// The request was refused before anything was changed; the caller can
    /// correct it.
    Validation,
    /// A condition that the operation needs does not hold, such as a
    /// partition that is still mounted.
    Precondition,
    /// The caller cancelled the operation while that was still safe.
    Cancelled,
    /// The platform has no means for what was asked, or the engine does
    /// not implement it there.
    Unsupported,
    /// A native tool failed; the message holds its diagnostic.
    Driver,
    /// A move failed after the old partition was deleted; the message names
    /// the staging directory that holds the content.
    DataAtRisk,
}

/// A failure of an operation: its kind, the phase in which it came up, and
/// a message for the operator.
#[derive(Debug, Clone)]
pub struct PartitionError {
    pub kind: ErrorKind,
    pub phase: String,
    pub message: String,
}

/// A failure as a mathematical value.
pub struct ErrorView {
    pub kind: ErrorKind,
    pub phase: Seq<char>,
    pub message: Seq<char>,
}

impl View for PartitionError {
    type V = ErrorView;

    open spec fn view(&self) -> ErrorView {
        ErrorView { kind: self.kind, phase: self.phase@, message: self.message@ }
    }
}

impl ErrorView {
    /// The failure in one line: the phase in brackets, then the message.
    pub open spec fn line(self) -> Seq<char> {
        "["@ + self.phase + "] "@ + self.message
    }
}

impl PartitionError {
    /// Makes a failure of the given kind.
    pub fn new(kind: ErrorKind, phase: &str, message: String) -> (e: PartitionError)
        ensures
            e@ == (ErrorView { kind, phase: phase@, message: message@ }),
    {
        PartitionError { kind, phase: String::from_str(phase), message }
    }

    /// The failure in one line: the phase in brackets, then the message.
    pub fn to_line(&self) -> (s: String)
        ensures
            s@ == self@.line(),
    {
        let mut s = String::from_str("[");
        s.append(self.phase.as_str());
        s.append("] ");
        s.append(self.message.as_str());
        s
    }
}

} // verus!
