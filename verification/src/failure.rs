//! Failures of the outside world, as far as the commands look at them.

use vstd::prelude::*;

verus! {

/// The kinds of input and output failures that are told apart.
#[derive(Debug, Clone, Copy, PartialEq, Eq, Structural)]
pub enum IoErrorKind {
    /// What was read does not make sense.
    InvalidData,
    /// Anything else.
    Other,
}

/// A failure of input or output.
#[derive(Debug, PartialEq, Eq)]
pub struct IoError {
    /// What kind of failure it is.
    pub kind: IoErrorKind,
    /// What happened, in words.
    pub message: String,
}

/// What an `IoError` says.
pub struct IoErrorView {
    /// What kind of failure it is.
    pub kind: IoErrorKind,
    /// What happened, in words.
    pub message: Seq<char>,
}

impl View for IoError {
    type V = IoErrorView;

    open spec fn view(&self) -> IoErrorView {
        IoErrorView { kind: self.kind, message: self.message@ }
    }
}

} // verus!
