//! What can go wrong during a check.

use crate::version::ParseError;
use vstd::prelude::*;

verus! {

/// The causes of a failed file operation that the library tells apart.
#[derive(Clone, Copy, Debug, PartialEq, Eq, Structural)]
pub enum IoErrorKind {
    /// There is no such file.
    NotFound,
    /// Anything else: no permission, no parent directory, a full disk.
    Other,
}

/// A file operation that failed.
#[derive(Debug, Clone, PartialEq, Eq)]
pub struct IoError {
    pub kind: IoErrorKind,
    /// What the system said.
    pub message: String,
}

/// An `IoError`, with its message as text.
pub struct IoErrorView {
    pub kind: IoErrorKind,
    pub message: Seq<char>,
}

impl View for IoError {
    type V = IoErrorView;

    open spec fn view(&self) -> IoErrorView {
        IoErrorView { kind: self.kind, message: self.message@ }
    }
}

/// The ways in which a request to a registry fails.
#[derive(Clone, Copy, Debug, PartialEq, Eq, Structural)]
pub enum TransportErrorKind {
    /// The registry answered with this status, which is none of 200 to 299.
    Status(u16),
    /// No answer came: the connection was refused or the time ran out.
    Unreachable,
    /// The answer came, but its body is not the JSON that was asked for.
    Malformed,
}

/// A request to a registry that failed.
#[derive(Debug, Clone, PartialEq, Eq)]
pub struct TransportError {
    pub kind: TransportErrorKind,
    /// What the transport said.
    pub message: String,
}

/// A `TransportError`, with its message as text.
pub struct TransportErrorView {
    pub kind: TransportErrorKind,
    pub message: Seq<char>,
}

impl View for TransportError {
    type V = TransportErrorView;

    open spec fn view(&self) -> TransportErrorView {
        TransportErrorView { kind: self.kind, message: self.message@ }
    }
}

/// Why a check came to no verdict.
#[derive(Debug, Clone, PartialEq, Eq)]
pub enum CheckError {
    /// The current or the latest version is no version.
    Parse(ParseError),
    /// The registry could not be asked.
    Transport(TransportError),
    /// The cache file could not be read, written or removed.
    Io(IoError),
    /// An event was handed in that answers no pending action.
    OutOfTurn,
}

/// A `CheckError`, with its strings as text.
pub enum CheckErrorView {
    Parse(Seq<char>),
    Transport(TransportErrorView),
    Io(IoErrorView),
    OutOfTurn,
}

impl View for CheckError {
    type V = CheckErrorView;

    open spec fn view(&self) -> CheckErrorView {
        match self {
            CheckError::Parse(e) => CheckErrorView::Parse(e@),
            CheckError::Transport(e) => CheckErrorView::Transport(e@),
            CheckError::Io(e) => CheckErrorView::Io(e@),
            CheckError::OutOfTurn => CheckErrorView::OutOfTurn,
        }
    }
}

} // verus!
