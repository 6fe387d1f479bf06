//! The sending procedure as a mathematical state machine: its stages as
//! values, and the step from one stage to the next.
use crate::channel::{fault_error, spec_completed, spec_written, Event};
use crate::client::{
    spec_begin_request, spec_load, spec_reply_error, spec_request_error, PendingFile,
};
use crate::error::TransferError;
use crate::protocol::{encode, Message};
use crate::sender::{Stage, Summary, MAX_GOODBYE_ATTEMPTS};
use crate::transfer::spec_size_prefix;
use vstd::prelude::*;

verus! {

/// An operation, with the bytes to write as a sequence.
pub enum ClientActionView {
    Connect,
    Send(Seq<u8>),
    Receive,
    Measure,
    Stream,
    Close,
}

/// The sending procedure as a value: each stage with what it holds. The
/// idle stages hold the pending file; the negotiation holds the name; the
/// streaming stages hold the declared size; the farewell holds the number of
/// failed attempts and what to report at the end.
pub enum SenderView {
    Connecting(PendingFile),
    Requesting(PendingFile),
    AwaitingReply(PendingFile),
    Naming(Seq<u8>),
    AwaitingAccept(Seq<u8>),
    Measuring,
    Prefixing(u64),
    Streaming(u64),
    AwaitingReceipt,
    Finishing(bool),
    Parting(PendingFile, nat, Summary),
    AwaitingGoodbye(PendingFile, nat, Summary),
    /// What the client still holds, the `error` it carries, the result of the
    /// procedure, and what it came to.
    Finished(PendingFile, Option<TransferError>, Result<(), TransferError>, Summary),
}

impl SenderView {
    /// The stage of the procedure.
    pub open spec fn stage(self) -> Stage {
        match self {
            SenderView::Connecting(..) => Stage::Connecting,
            SenderView::Requesting(..) => Stage::Requesting,
            SenderView::AwaitingReply(..) => Stage::AwaitingReply,
            SenderView::Naming(..) => Stage::Naming,
            SenderView::AwaitingAccept(..) => Stage::AwaitingAccept,
            SenderView::Measuring => Stage::Measuring,
            SenderView::Prefixing(..) => Stage::Prefixing,
            SenderView::Streaming(..) => Stage::Streaming,
            SenderView::AwaitingReceipt => Stage::AwaitingReceipt,
            SenderView::Finishing(..) => Stage::Finishing,
            SenderView::Parting(..) => Stage::Parting,
            SenderView::AwaitingGoodbye(..) => Stage::AwaitingGoodbye,
            SenderView::Finished(..) => Stage::Finished,
        }
    }
}

/// A client that holds neither file nor name.
pub open spec fn nothing_held() -> PendingFile {
    PendingFile { opened: false, name: None }
}

/// The operation that writes a control message.
pub open spec fn say(message: Message) -> ClientActionView {
    ClientActionView::Send(seq![encode(message)])
}

/// The end of a procedure that is abandoned on `error`: the error is both
/// its result and what the client carries.
pub open spec fn abandoned(held: PendingFile, error: TransferError) -> (
    SenderView,
    ClientActionView,
) {
    (
        SenderView::Finished(held, Some(error), Err(error), Summary::Abandoned),
        ClientActionView::Close,
    )
}

/// The beginning of the procedure: the file at `path` is loaded into what
/// the client holds, and if that succeeds a connection is asked for.
pub open spec fn spec_send(held: PendingFile, path: Seq<u8>, opened: Event) -> (
    SenderView,
    ClientActionView,
) {
    match spec_load(held, path, opened).1 {
        Ok(()) => (SenderView::Connecting(spec_load(held, path, opened).0), ClientActionView::Connect),
        Err(error) => abandoned(spec_load(held, path, opened).0, error),
    }
}

/// The beginning of the farewell: `Goodbye` is to be written, and no
/// attempt has failed yet.
pub open spec fn spec_goodbye(held: PendingFile, summary: Summary) -> (
    SenderView,
    ClientActionView,
) {
    (SenderView::Parting(held, 0, summary), say(Message::Goodbye))
}

/// One step of the procedure: the stage that follows when the operation
/// asked for ended as `event` says, and the operation to perform next.
pub open spec fn spec_step(state: SenderView, event: Event) -> (SenderView, ClientActionView) {
    match state {
        SenderView::Connecting(held) => match spec_completed(event) {
            Ok(()) => match spec_begin_request(held) {
                Ok(message) => (SenderView::Requesting(held), say(message)),
                Err(error) => abandoned(held, error),
            },
            Err(error) => (
                SenderView::Finished(held, Some(error), Ok(()), Summary::Unreachable),
                ClientActionView::Close,
            ),
        },
        SenderView::Requesting(held) => match spec_written(event, 1) {
            Ok(()) => (SenderView::AwaitingReply(held), ClientActionView::Receive),
            Err(error) => abandoned(held, error),
        },
        SenderView::AwaitingReply(held) => match spec_request_error(held, event) {
            None => (
                SenderView::Naming(held.name.unwrap()),
                ClientActionView::Send(held.name.unwrap()),
            ),
            Some(error) => abandoned(held, error),
        },
        SenderView::Naming(name) => match spec_written(event, name.len() as int) {
            Ok(()) => (SenderView::AwaitingAccept(name), ClientActionView::Receive),
            Err(error) => abandoned(nothing_held(), error),
        },
        SenderView::AwaitingAccept(name) => match spec_reply_error(event, Message::Ack) {
            None => (SenderView::Measuring, ClientActionView::Measure),
            Some(error) => spec_goodbye(nothing_held(), Summary::Refused(error)),
        },
        SenderView::Measuring => match event {
            Event::Length(size) => (
                SenderView::Prefixing(size),
                ClientActionView::Send(spec_size_prefix(size)),
            ),
            Event::Failed(fault) => abandoned(nothing_held(), fault_error(fault)),
            _ => abandoned(nothing_held(), TransferError::ProtocolInvariantViolation),
        },
        SenderView::Prefixing(size) => match spec_written(event, 8) {
            Ok(()) => (SenderView::Streaming(size), ClientActionView::Stream),
            Err(error) => abandoned(nothing_held(), error),
        },
        SenderView::Streaming(size) => match spec_written(event, size as int) {
            Ok(()) => (SenderView::AwaitingReceipt, ClientActionView::Receive),
            Err(error) => abandoned(nothing_held(), error),
        },
        SenderView::AwaitingReceipt => (
            SenderView::Finishing(spec_reply_error(event, Message::Ack) is None),
            say(Message::Goodbye),
        ),
        SenderView::Finishing(acknowledged) => match spec_written(event, 1) {
            Ok(()) => spec_goodbye(nothing_held(), Summary::Sent { acknowledged }),
            Err(error) => (
                SenderView::Finished(
                    nothing_held(),
                    Some(error),
                    Ok(()),
                    Summary::Sent { acknowledged },
                ),
                ClientActionView::Close,
            ),
        },
        SenderView::Parting(held, failures, summary) => match spec_written(event, 1) {
            Ok(()) => (
                SenderView::AwaitingGoodbye(held, failures, summary),
                ClientActionView::Receive,
            ),
            Err(error) => if failures + 1 >= MAX_GOODBYE_ATTEMPTS {
                (SenderView::Finished(held, Some(error), Ok(()), summary), ClientActionView::Close)
            } else {
                (SenderView::Parting(held, failures + 1, summary), say(Message::Goodbye))
            },
        },
        SenderView::AwaitingGoodbye(held, failures, summary) => if spec_reply_error(
            event,
            Message::Goodbye,
        ) is None {
            (SenderView::Finished(held, None, Ok(()), summary), ClientActionView::Close)
        } else {
            (SenderView::Parting(held, failures, summary), say(Message::Goodbye))
        },
        SenderView::Finished(..) => (state, ClientActionView::Close),
    }
}

/// Where the procedure stands when it began at `state` and the operations
/// asked for ended as `events` say, one after the other.
pub open spec fn spec_steps(state: SenderView, events: Seq<Event>) -> SenderView
    decreases events.len(),
{
    if events.len() == 0 {
        state
    } else {
        spec_step(spec_steps(state, events.drop_last()), events.last()).0
    }
}

} // verus!
