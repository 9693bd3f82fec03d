//! The ways in which a run can fail. Each of them ends the run: nothing is
//! tried again, and a file that was written in part is left as it is.

use vstd::prelude::*;
use crate::sink::SinkError;
use crate::size::SizeParseError;
use crate::stream::StreamError;

verus! {

/// What went wrong.
#[derive(Clone, Copy, Debug, PartialEq, Eq, Structural)]
pub enum Failure {
    /// The wrong number of arguments.
    Usage,
    /// The size is no size literal, or too large.
    Size(SizeParseError),
    /// The file could not be created.
    Sink(SinkError),
    /// The stream broke off.
    Stream(StreamError),
}

/// The kinds of failure that a caller is told apart.
#[derive(Clone, Copy, Debug, PartialEq, Eq, Structural)]
pub enum FailureKind {
    UsageError,
    SizeParseError,
    OutputConflict,
    IoError,
    EntropyError,
}

impl Failure {
    /// The kind of this failure. A path that is taken is a conflict; every
    /// other failure to create the file, and a failure to write to it, is an
    /// I/O error.
    pub open spec fn kind_spec(self) -> FailureKind {
        match self {
            Failure::Usage => FailureKind::UsageError,
            Failure::Size(_) => FailureKind::SizeParseError,
            Failure::Sink(SinkError::AlreadyExists) => FailureKind::OutputConflict,
            Failure::Sink(_) => FailureKind::IoError,
            Failure::Stream(StreamError::EntropyFailure) => FailureKind::EntropyError,
            Failure::Stream(StreamError::WriteFailure) => FailureKind::IoError,
        }
    }

    /// The kind of this failure.
    pub fn kind(&self) -> (k: FailureKind)
        ensures
            k == self.kind_spec(),
    {
        match self {
            Failure::Usage => FailureKind::UsageError,
            Failure::Size(_) => FailureKind::SizeParseError,
            Failure::Sink(SinkError::AlreadyExists) => FailureKind::OutputConflict,
            Failure::Sink(_) => FailureKind::IoError,
            Failure::Stream(StreamError::EntropyFailure) => FailureKind::EntropyError,
            Failure::Stream(StreamError::WriteFailure) => FailureKind::IoError,
        }
    }
}

} // verus!
