//! The server as a mathematical state machine: a server as a value, and
//! the step that an outcome makes it take.
use crate::channel::{
    fault_error, spec_completed, spec_receive_control, spec_written, Event,
};
use crate::error::TransferError;
use crate::path::{spec_destination, spec_join};
use crate::protocol::{encode, Message, State};
use crate::server::{Pending, MAX_GOODBYE_ATTEMPTS};
use crate::transfer::{spec_declared_size, spec_take_chunk};
use vstd::prelude::*;
use vstd::utf8::valid_utf8;

verus! {

/// An operation, with its bytes as a sequence.
pub enum ServerActionView {
    Accept,
    Receive,
    Send(Seq<u8>),
    ReadName,
    ReadPrefix,
    Create(Seq<u8>),
    ReadChunk,
    Append(Seq<u8>),
    Flush,
    Shutdown,
}

/// A server as a value.
pub struct ServerView {
    /// Whether a connection is held.
    pub connected: bool,
    /// The directory that received files are written to.
    pub directory: Seq<u8>,
    /// The phase of the connection; unset while there is none.
    pub state: Option<State>,
    /// The file name as it was received.
    pub filename: Option<Seq<u8>>,
    /// The operation whose outcome is awaited.
    pub pending: Pending,
    /// How many bytes of the file are still owed.
    pub remaining: u64,
    /// How many writes of `Goodbye` have failed.
    pub failures: nat,
    /// Why the connection was given up, or could not be closed in good order.
    pub error: Option<TransferError>,
}

/// The name of the throwaway file by which a directory is probed for
/// writing: `fshare_write_test`.
pub open spec fn spec_probe_name() -> Seq<u8> {
    seq![102, 115, 104, 97, 114, 101, 95, 119, 114, 105, 116, 101, 95, 116, 101, 115, 116]
}

/// The path of the throwaway file by which `directory` is probed.
pub open spec fn spec_probe(directory: Seq<u8>) -> Seq<u8> {
    spec_join(directory, spec_probe_name())
}

/// A server that was just built for `directory`: no connection, and the
/// next connection awaited.
pub open spec fn spec_built(directory: Seq<u8>) -> ServerView {
    ServerView {
        connected: false,
        directory,
        state: None,
        filename: None,
        pending: Pending::Accept,
        remaining: 0,
        failures: 0,
        error: None,
    }
}

/// The operation that writes a control message.
pub open spec fn reply(message: Message) -> ServerActionView {
    ServerActionView::Send(seq![encode(message)])
}

/// The connection is dropped and the next one awaited; `error` tells why
/// the connection was given up, if not in good order.
pub open spec fn spec_drop(server: ServerView, error: Option<TransferError>) -> (
    ServerView,
    ServerActionView,
) {
    (
        ServerView {
            connected: false,
            state: None,
            filename: None,
            pending: Pending::Accept,
            error,
            ..server
        },
        ServerActionView::Accept,
    )
}

/// Goodbye-and-close begins: `Goodbye` is to be written, and no attempt has
/// failed yet.
pub open spec fn spec_goodbye(server: ServerView) -> (ServerView, ServerActionView) {
    (ServerView { pending: Pending::Goodbye, failures: 0, ..server }, reply(Message::Goodbye))
}

/// The connection is given up on `error`: the error is kept, and the
/// connection is closed by a best-effort goodbye.
pub open spec fn spec_abort(server: ServerView, error: TransferError) -> (
    ServerView,
    ServerActionView,
) {
    spec_goodbye(ServerView { error: Some(error), ..server })
}

/// The operation that the phase of the connection calls for. An unset phase
/// is an invalid state: the connection is dropped with
/// `ProtocolInvariantViolation`.
pub open spec fn spec_progress(server: ServerView) -> (ServerView, ServerActionView) {
    match server.state {
        Some(State::Connected) => (
            ServerView { pending: Pending::Control, ..server },
            ServerActionView::Receive,
        ),
        Some(State::Negotiating) => (
            ServerView { pending: Pending::Name, ..server },
            ServerActionView::ReadName,
        ),
        Some(State::Receiving) => (
            ServerView { pending: Pending::Prefix, ..server },
            ServerActionView::ReadPrefix,
        ),
        None => spec_drop(server, Some(TransferError::ProtocolInvariantViolation)),
    }
}

/// What a control message means in the connected phase: a request is
/// acknowledged, `Goodbye` is answered by goodbye-and-close, and any other
/// message is a protocol violation, answered by goodbye-and-close as well.
pub open spec fn spec_handle_message(server: ServerView, message: Message) -> (
    ServerView,
    ServerActionView,
) {
    match message {
        Message::Goodbye => spec_goodbye(server),
        Message::FileTransferRequest => (
            ServerView { pending: Pending::RequestAck, ..server },
            reply(Message::Ack),
        ),
        _ => spec_abort(server, TransferError::ProtocolViolation(message)),
    }
}

/// What the outcome of the read of the file name means: a name that is
/// UTF-8 is kept as it came and acknowledged.
pub open spec fn spec_receive_filename(server: ServerView, event: Event) -> (
    ServerView,
    ServerActionView,
) {
    match event {
        Event::Payload(payload) => if valid_utf8(payload@) {
            (
                ServerView { filename: Some(payload@), pending: Pending::NameAck, ..server },
                reply(Message::Ack),
            )
        } else {
            spec_abort(server, TransferError::InvalidFilename)
        },
        Event::Closed => spec_abort(server, TransferError::IoError),
        Event::Failed(fault) => spec_abort(server, fault_error(fault)),
        _ => spec_abort(server, TransferError::ProtocolInvariantViolation),
    }
}

/// The next operation on the file body: another read while bytes are owed,
/// the flush once none are.
pub open spec fn spec_next_chunk(server: ServerView) -> (ServerView, ServerActionView) {
    if server.remaining == 0 {
        (ServerView { pending: Pending::Flush, ..server }, ServerActionView::Flush)
    } else {
        (ServerView { pending: Pending::Chunk, ..server }, ServerActionView::ReadChunk)
    }
}

/// What the outcome of the read of the size prefix means: the declared size
/// is owed, and the destination file is to be created in the directory,
/// under the base name of the name received.
pub open spec fn spec_receive_prefix(server: ServerView, event: Event) -> (
    ServerView,
    ServerActionView,
) {
    match event {
        Event::Payload(prefix) => if prefix@.len() != 8 {
            spec_abort(server, TransferError::ProtocolInvariantViolation)
        } else {
            match server.filename {
                None => spec_abort(server, TransferError::ProtocolInvariantViolation),
                Some(name) => match spec_destination(server.directory, name) {
                    None => spec_abort(server, TransferError::EmptyFilename),
                    Some(path) => (
                        ServerView {
                            remaining: spec_declared_size(prefix@) as u64,
                            pending: Pending::Create,
                            ..server
                        },
                        ServerActionView::Create(path),
                    ),
                },
            }
        },
        Event::Closed => spec_abort(server, TransferError::ShortRead),
        Event::Failed(fault) => spec_abort(server, fault_error(fault)),
        _ => spec_abort(server, TransferError::ProtocolInvariantViolation),
    }
}

/// What the outcome of a read of file content means: the part of the read
/// that is still owed goes to the file. A stream that ends while bytes are
/// owed is a short read.
pub open spec fn spec_receive_chunk(server: ServerView, event: Event) -> (
    ServerView,
    ServerActionView,
) {
    match event {
        Event::Payload(chunk) => if chunk@.len() == 0 {
            spec_abort(server, TransferError::ShortRead)
        } else {
            (
                ServerView {
                    pending: Pending::Append(
                        spec_take_chunk(server.remaining as nat, chunk@).len() as u64,
                    ),
                    ..server
                },
                ServerActionView::Append(spec_take_chunk(server.remaining as nat, chunk@)),
            )
        },
        Event::Closed => spec_abort(server, TransferError::ShortRead),
        Event::Failed(fault) => spec_abort(server, fault_error(fault)),
        _ => spec_abort(server, TransferError::ProtocolInvariantViolation),
    }
}

/// One step of the receiving phase.
pub open spec fn spec_receive_file(server: ServerView, event: Event) -> (
    ServerView,
    ServerActionView,
) {
    match server.pending {
        Pending::Prefix => spec_receive_prefix(server, event),
        Pending::Create => match spec_completed(event) {
            Ok(()) => spec_next_chunk(server),
            Err(error) => spec_abort(server, error),
        },
        Pending::Chunk => spec_receive_chunk(server, event),
        Pending::Append(count) => match spec_written(event, count as int) {
            Ok(()) => if count <= server.remaining {
                spec_next_chunk(
                    ServerView { remaining: (server.remaining - count) as u64, ..server },
                )
            } else {
                spec_abort(server, TransferError::ProtocolInvariantViolation)
            },
            Err(error) => spec_abort(server, error),
        },
        Pending::Flush => match spec_completed(event) {
            Ok(()) => (ServerView { pending: Pending::FileAck, ..server }, reply(Message::Ack)),
            Err(error) => spec_abort(server, error),
        },
        _ => spec_abort(server, TransferError::ProtocolInvariantViolation),
    }
}

/// One step of goodbye-and-close. A failed write of `Goodbye` is tried
/// again until `MAX_GOODBYE_ATTEMPTS` have failed; then the connection is
/// dropped with the error of the last attempt. After a successful write the
/// connection is half-closed and dropped.
pub open spec fn spec_close(server: ServerView, event: Event) -> (ServerView, ServerActionView) {
    match server.pending {
        Pending::Goodbye => match spec_written(event, 1) {
            Ok(()) => (
                ServerView { pending: Pending::Shutdown, ..server },
                ServerActionView::Shutdown,
            ),
            Err(error) => if server.failures + 1 >= MAX_GOODBYE_ATTEMPTS {
                spec_drop(server, Some(error))
            } else {
                (
                    ServerView { failures: server.failures + 1, ..server },
                    reply(Message::Goodbye),
                )
            },
        },
        _ => match spec_completed(event) {
            Ok(()) => spec_drop(server, server.error),
            Err(error) => spec_drop(server, Some(error)),
        },
    }
}

/// One step of the server: what becomes of it when the operation asked for
/// ended as `event` says, and the operation to perform next.
pub open spec fn spec_run(server: ServerView, event: Event) -> (ServerView, ServerActionView) {
    match server.pending {
        Pending::Accept => match spec_completed(event) {
            Ok(()) => spec_progress(
                ServerView {
                    connected: true,
                    state: Some(State::Connected),
                    filename: None,
                    error: None,
                    ..server
                },
            ),
            Err(error) => spec_drop(server, Some(error)),
        },
        Pending::Control => match spec_receive_control(event) {
            Ok(message) => spec_handle_message(server, message),
            Err(error) => spec_abort(server, error),
        },
        Pending::RequestAck => match spec_written(event, 1) {
            Ok(()) => spec_progress(ServerView { state: Some(State::Negotiating), ..server }),
            Err(error) => spec_abort(server, error),
        },
        Pending::Name => spec_receive_filename(server, event),
        Pending::NameAck => match spec_written(event, 1) {
            Ok(()) => spec_progress(ServerView { state: Some(State::Receiving), ..server }),
            Err(error) => spec_abort(server, error),
        },
        Pending::FileAck => match spec_written(event, 1) {
            Ok(()) => spec_progress(ServerView { state: Some(State::Connected), ..server }),
            Err(error) => spec_abort(server, error),
        },
        Pending::Goodbye | Pending::Shutdown => spec_close(server, event),
        _ => spec_receive_file(server, event),
    }
}

/// What becomes of a server when the operations it asks for end as `events`
/// say, one after the other.
pub open spec fn spec_runs(server: ServerView, events: Seq<Event>) -> ServerView
    decreases events.len(),
{
    if events.len() == 0 {
        server
    } else {
        spec_run(spec_runs(server, events.drop_last()), events.last()).0
    }
}

} // verus!
