//! The duplex channel, seen from the engine: the outcome of each operation
//! that the surrounding program performs on a stream or a file, and the
//! rules that read a control message out of such an outcome.
use crate::error::TransferError;
use crate::protocol::{decode, encode, Message};
use vstd::prelude::*;

verus! {

/// The deadline, in seconds, of every blocking read on a connection: reads
/// of control bytes and reads of file content alike.
pub const READ_TIMEOUT_SECS: u64 = 5;

/// How an operation failed.
#[derive(Clone, Copy, Debug, PartialEq, Eq, Structural)]
pub enum Fault {
    /// The transport or the filesystem reported an error.
    Io,
    /// The read deadline passed.
    Timeout,
}

/// What became of the operation that a state machine asked for.
#[derive(Debug, PartialEq, Eq)]
pub enum Event {
    /// An operation that yields nothing went through: a connection was made
    /// or accepted, a file was opened or created, a flush or a half-close
    /// succeeded.
    Completed,
    /// A write went through and took this many bytes.
    Written(u64),
    /// A control read delivered this byte.
    Byte(u8),
    /// A read delivered these bytes.
    Payload(Vec<u8>),
    /// The file to send has this many bytes.
    Length(u64),
    /// A read found the stream at its end.
    Closed,
    /// The operation failed.
    Failed(Fault),
}

/// The error that stands for a fault.
pub open spec fn fault_error(fault: Fault) -> TransferError {
    match fault {
        Fault::Io => TransferError::IoError,
        Fault::Timeout => TransferError::Timeout,
    }
}

/// How an operation that yields nothing ended.
pub open spec fn spec_completed(event: Event) -> Result<(), TransferError> {
    match event {
        Event::Completed => Ok(()),
        Event::Failed(fault) => Err(fault_error(fault)),
        _ => Err(TransferError::ProtocolInvariantViolation),
    }
}

/// How a write of `expected` bytes ended: it succeeded only if every byte
/// was taken. A failed write and a partial write are both `IoError`.
pub open spec fn spec_written(event: Event, expected: int) -> Result<(), TransferError> {
    match event {
        Event::Written(count) => if count == expected {
            Ok(())
        } else {
            Err(TransferError::IoError)
        },
        Event::Failed(_) => Err(TransferError::IoError),
        _ => Err(TransferError::ProtocolInvariantViolation),
    }
}

/// The control message that a read delivered.
pub open spec fn spec_receive_control(event: Event) -> Result<Message, TransferError> {
    match event {
        Event::Byte(byte) => match decode(byte) {
            Ok(message) => Ok(message),
            Err(unknown) => Err(TransferError::DecodeError(unknown)),
        },
        Event::Closed => Err(TransferError::IoError),
        Event::Failed(fault) => Err(fault_error(fault)),
        _ => Err(TransferError::ProtocolInvariantViolation),
    }
}

/// Turns a fault into the error that reports it.
pub fn fault_to_error(fault: Fault) -> (error: TransferError)
    ensures
        error == fault_error(fault),
{
    match fault {
        Fault::Io => TransferError::IoError,
        Fault::Timeout => TransferError::Timeout,
    }
}

/// Reads the outcome of an operation that yields nothing.
pub fn completed(event: &Event) -> (outcome: Result<(), TransferError>)
    ensures
        outcome == spec_completed(*event),
{
    match event {
        Event::Completed => Ok(()),
        Event::Failed(fault) => Err(fault_to_error(*fault)),
        _ => Err(TransferError::ProtocolInvariantViolation),
    }
}

/// Reads the outcome of a write of `expected` bytes.
pub fn written(event: &Event, expected: u64) -> (outcome: Result<(), TransferError>)
    ensures
        outcome == spec_written(*event, expected as int),
{
    match event {
        Event::Written(count) => if *count == expected {
            Ok(())
        } else {
            Err(TransferError::IoError)
        },
        Event::Failed(_) => Err(TransferError::IoError),
        _ => Err(TransferError::ProtocolInvariantViolation),
    }
}

/// The bytes to write for a control message: its one-byte code.
pub fn send_control(message: Message) -> (bytes: Vec<u8>)
    ensures
        bytes@ == seq![encode(message)],
{
    let code = message.as_bytes();
    let mut bytes: Vec<u8> = Vec::new();
    bytes.push(code[0]);
    assert(bytes@ =~= seq![encode(message)]);
    bytes
}

/// Reads the outcome of a control read: the message whose code arrived, or
/// `DecodeError` for any other byte, `Timeout` when the deadline passed,
/// `IoError` when the transport failed or the peer closed the stream.
pub fn receive_control(event: &Event) -> (received: Result<Message, TransferError>)
    ensures
        received == spec_receive_control(*event),
{
    match event {
        Event::Byte(byte) => match Message::try_from(*byte) {
            Ok(message) => Ok(message),
            Err(unknown) => Err(TransferError::DecodeError(unknown)),
        },
        Event::Closed => Err(TransferError::IoError),
        Event::Failed(fault) => Err(fault_to_error(*fault)),
        _ => Err(TransferError::ProtocolInvariantViolation),
    }
}

} // verus!
