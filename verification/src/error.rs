//! The one error type of the protocol engine.
use crate::protocol::{DecodeError, Message};
use vstd::prelude::*;

verus! {

/// Why a step of a transfer failed.
#[derive(Clone, Copy, Debug, PartialEq, Eq, Structural)]
pub enum TransferError {
    /// The transport or the filesystem failed, a write was cut short, or the
    /// peer closed the stream where a control byte was due.
    IoError,
    /// No data arrived within the read deadline.
    Timeout,
    /// A byte that is no control message arrived where one was due.
    DecodeError(DecodeError),
    /// A control message arrived that is not valid for the current phase.
    ProtocolViolation(Message),
    /// The stream ended before the declared file size was satisfied.
    ShortRead,
    /// The sender has no file loaded.
    NoFileConfigured,
    /// The sender has no file name loaded.
    NoFilenameConfigured,
    /// The receiver was built without a destination directory.
    NoDirectoryConfigured,
    /// A path or a received name has no final component to name a file by.
    EmptyFilename,
    /// A received name is not UTF-8.
    InvalidFilename,
    /// A step was invoked in a state that has no such step: the phase was
    /// unset, or the outcome handed in answers another operation than the one
    /// asked for.
    ProtocolInvariantViolation,
}

} // verus!
