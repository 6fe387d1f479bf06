//! The sending procedure as a state machine: load a file, connect, request,
//! negotiate the name, stream the file, say goodbye.
//!
//! The machine performs no operation itself. It answers each outcome with
//! the next operation to perform, and the program around it performs that
//! operation and hands back its outcome:
//!
//! ```text
//! let (mut sender, mut action) = Client::new().send(path, &opened);
//! while action != ClientAction::Close {
//!     let event = perform(action);
//!     (sender, action) = sender.step(&event);
//! }
//! ```
pub mod laws;
pub mod model;

use crate::channel::{fault_to_error, send_control, written, Event};
use crate::client::{reply_error, Client, Connected, Disconnected, Negotiating, Sending};
use crate::error::TransferError;
use crate::protocol::Message;
use crate::sender::model::{
    abandoned, nothing_held, say, spec_goodbye, spec_send, spec_step, ClientActionView,
    SenderView,
};
use vstd::prelude::*;
use vstd::slice::slice_to_vec;

verus! {

/// How often the sender tries to write `Goodbye` before it gives the
/// connection up.
pub const MAX_GOODBYE_ATTEMPTS: u8 = 5;

/// What a run of the sending procedure came to.
#[derive(Clone, Copy, Debug, PartialEq, Eq, Structural)]
pub enum Summary {
    /// Only the farewell was run.
    Closed,
    /// The file was streamed. `acknowledged` tells whether the receiver
    /// confirmed the receipt with `Ack`.
    Sent { acknowledged: bool },
    /// The receiver did not accept the file name; the error tells what came
    /// in place of `Ack`.
    Refused(TransferError),
    /// No connection could be made.
    Unreachable,
    /// The procedure was abandoned on an error.
    Abandoned,
}

/// The operation that the sender asks for.
#[derive(Debug, PartialEq, Eq)]
pub enum ClientAction {
    /// Connect to the server, with the read deadline set.
    Connect,
    /// Write these bytes to the connection.
    Send(Vec<u8>),
    /// Read one control byte from the connection.
    Receive,
    /// Find out the size of the loaded file.
    Measure,
    /// Copy the whole content of the loaded file to the connection.
    Stream,
    /// Nothing more: drop the connection, if there is one.
    Close,
}

impl View for ClientAction {
    type V = ClientActionView;

    open spec fn view(&self) -> ClientActionView {
        match *self {
            ClientAction::Connect => ClientActionView::Connect,
            ClientAction::Send(bytes) => ClientActionView::Send(bytes@),
            ClientAction::Receive => ClientActionView::Receive,
            ClientAction::Measure => ClientActionView::Measure,
            ClientAction::Stream => ClientActionView::Stream,
            ClientAction::Close => ClientActionView::Close,
        }
    }
}

/// Where the procedure stands: the operation whose outcome it waits for.
#[derive(Clone, Copy, Debug, PartialEq, Eq, Structural)]
pub enum Stage {
    /// Connected phase not yet reached: the connection attempt is under way.
    Connecting,
    /// `FileTransferRequest` is being written.
    Requesting,
    /// The reply to the request is awaited.
    AwaitingReply,
    /// The file name is being written.
    Naming,
    /// The reply to the file name is awaited.
    AwaitingAccept,
    /// The size of the file is being found out.
    Measuring,
    /// The size prefix is being written.
    Prefixing,
    /// The content is being copied.
    Streaming,
    /// The receiver's confirmation is awaited.
    AwaitingReceipt,
    /// `Goodbye` is being written at the end of the transfer.
    Finishing,
    /// `Goodbye` is being written to close the connection.
    Parting,
    /// The receiver's `Goodbye` is awaited.
    AwaitingGoodbye,
    /// The procedure is over.
    Finished,
}

/// The sending procedure at one of its stages, with the client in the phase
/// that the stage belongs to.
#[derive(Debug)]
pub enum Sender {
    Connecting(Client<Disconnected>),
    Requesting(Client<Connected>),
    AwaitingReply(Client<Connected>),
    Naming(Client<Negotiating>),
    AwaitingAccept(Client<Negotiating>),
    Measuring(Client<Sending>),
    Prefixing(Client<Sending>, u64),
    Streaming(Client<Sending>, u64),
    AwaitingReceipt(Client<Sending>),
    Finishing(Client<Sending>, bool),
    Parting(Client<Connected>, u8, Summary),
    AwaitingGoodbye(Client<Connected>, u8, Summary),
    Finished(Client<Disconnected>, Result<(), TransferError>, Summary),
}

impl View for Sender {
    type V = SenderView;

    open spec fn view(&self) -> SenderView {
        match *self {
            Sender::Connecting(client) => SenderView::Connecting(client@),
            Sender::Requesting(client) => SenderView::Requesting(client@),
            Sender::AwaitingReply(client) => SenderView::AwaitingReply(client@),
            Sender::Naming(client) => SenderView::Naming(client@),
            Sender::AwaitingAccept(client) => SenderView::AwaitingAccept(client@),
            Sender::Measuring(_) => SenderView::Measuring,
            Sender::Prefixing(_, size) => SenderView::Prefixing(size),
            Sender::Streaming(_, size) => SenderView::Streaming(size),
            Sender::AwaitingReceipt(_) => SenderView::AwaitingReceipt,
            Sender::Finishing(_, acknowledged) => SenderView::Finishing(acknowledged),
            Sender::Parting(client, failures, summary) => SenderView::Parting(
                client@,
                failures as nat,
                summary,
            ),
            Sender::AwaitingGoodbye(client, failures, summary) => SenderView::AwaitingGoodbye(
                client@,
                failures as nat,
                summary,
            ),
            Sender::Finished(client, result, summary) => SenderView::Finished(
                client@,
                client.error(),
                result,
                summary,
            ),
        }
    }
}

/// The operation that writes `message`.
fn say_message(message: Message) -> (action: ClientAction)
    ensures
        action@ == say(message),
{
    ClientAction::Send(send_control(message))
}

/// Ends the procedure on `error`, with a client that was idle.
fn abandon_connected(client: Client<Connected>, error: TransferError) -> (next: (
    Sender,
    ClientAction,
))
    ensures
        (next.0@, next.1@) == abandoned(client@, error),
{
    (
        Sender::Finished(client.disconnect(Some(error)), Err(error), Summary::Abandoned),
        ClientAction::Close,
    )
}

/// Ends the procedure on `error`, with a client that was streaming.
fn abandon_sending(client: Client<Sending>, error: TransferError) -> (next: (Sender, ClientAction))
    ensures
        (next.0@, next.1@) == abandoned(nothing_held(), error),
{
    (Sender::Finished(client.abandon(error), Err(error), Summary::Abandoned), ClientAction::Close)
}

/// Begins the farewell.
fn part(client: Client<Connected>, summary: Summary) -> (next: (Sender, ClientAction))
    ensures
        (next.0@, next.1@) == spec_goodbye(client@, summary),
{
    (Sender::Parting(client, 0, summary), say_message(Message::Goodbye))
}

impl Client<Disconnected> {
    /// Begins the whole procedure for the file at `path`, when opening that
    /// file ended as `opened` says. The file is loaded first; if that fails,
    /// the procedure is over at once, with the error as its result.
    /// Otherwise the first operation asked for is `Connect`.
    pub fn send(self, path: &[u8], opened: &Event) -> (next: (Sender, ClientAction))
        ensures
            (next.0@, next.1@) == spec_send(self@, path@, *opened),
    {
        let mut client = self;
        match client.load_file(path, opened) {
            Ok(()) => (Sender::Connecting(client), ClientAction::Connect),
            Err(error) => (
                Sender::Finished(client.failed(error), Err(error), Summary::Abandoned),
                ClientAction::Close,
            ),
        }
    }
}

impl Client<Connected> {
    /// Begins the farewell: `Goodbye` is written and the server's `Goodbye`
    /// awaited. A failed write is tried again, up to
    /// `MAX_GOODBYE_ATTEMPTS` failures; a reply that is not `Goodbye` counts
    /// as no reply, and `Goodbye` is written again. The first operation asked
    /// for is the write of `Goodbye`.
    pub fn goodbye(self) -> (next: (Sender, ClientAction))
        ensures
            (next.0@, next.1@) == spec_goodbye(self@, Summary::Closed),
    {
        part(self, Summary::Closed)
    }
}

impl Sender {
    /// The stage at which the procedure stands.
    pub fn stage(&self) -> (stage: Stage)
        ensures
            stage == self@.stage(),
    {
        match self {
            Sender::Connecting(..) => Stage::Connecting,
            Sender::Requesting(..) => Stage::Requesting,
            Sender::AwaitingReply(..) => Stage::AwaitingReply,
            Sender::Naming(..) => Stage::Naming,
            Sender::AwaitingAccept(..) => Stage::AwaitingAccept,
            Sender::Measuring(..) => Stage::Measuring,
            Sender::Prefixing(..) => Stage::Prefixing,
            Sender::Streaming(..) => Stage::Streaming,
            Sender::AwaitingReceipt(..) => Stage::AwaitingReceipt,
            Sender::Finishing(..) => Stage::Finishing,
            Sender::Parting(..) => Stage::Parting,
            Sender::AwaitingGoodbye(..) => Stage::AwaitingGoodbye,
            Sender::Finished(..) => Stage::Finished,
        }
    }

    /// The result of the procedure, once it is over.
    pub fn result(&self) -> (result: Option<Result<(), TransferError>>)
        ensures
            result == match self@ {
                SenderView::Finished(_, _, result, _) => Some(result),
                _ => None,
            },
    {
        match self {
            Sender::Finished(_, result, _) => Some(*result),
            _ => None,
        }
    }

    /// What the procedure came to, once it is over.
    pub fn summary(&self) -> (summary: Option<Summary>)
        ensures
            summary == match self@ {
                SenderView::Finished(_, _, _, summary) => Some(summary),
                _ => None,
            },
    {
        match self {
            Sender::Finished(_, _, summary) => Some(*summary),
            _ => None,
        }
    }

    /// The error that the disconnected client carries, once the procedure is
    /// over: why the connection failed or could not be closed in good order.
    pub fn error(&self) -> (error: Option<TransferError>)
        ensures
            error == match self@ {
                SenderView::Finished(_, error, _, _) => error,
                _ => None,
            },
    {
        match self {
            Sender::Finished(client, _, _) => client.error(),
            _ => None,
        }
    }

    /// Takes the outcome of the operation that was asked for, and answers
    /// with the stage that follows and the next operation.
    pub fn step(self, event: &Event) -> (next: (Sender, ClientAction))
        ensures
            (next.0@, next.1@) == spec_step(self@, *event),
    {
        match self {
            Sender::Connecting(client) => match client.connect(event) {
                Ok(client) => match client.begin_request() {
                    Ok(message) => (Sender::Requesting(client), say_message(message)),
                    Err(error) => abandon_connected(client, error),
                },
                Err(client) => (
                    Sender::Finished(client, Ok(()), Summary::Unreachable),
                    ClientAction::Close,
                ),
            },
            Sender::Requesting(client) => match written(event, 1) {
                Ok(()) => (Sender::AwaitingReply(client), ClientAction::Receive),
                Err(error) => abandon_connected(client, error),
            },
            Sender::AwaitingReply(client) => match client.request(event) {
                Ok(client) => {
                    let payload = client.send_filename();
                    (Sender::Naming(client), ClientAction::Send(payload))
                },
                Err(client) => {
                    let error = client.error().unwrap();
                    abandon_connected(client, error)
                },
            },
            Sender::Naming(client) => {
                let length = client.filename().len() as u64;
                match written(event, length) {
                    Ok(()) => (Sender::AwaitingAccept(client), ClientAction::Receive),
                    Err(error) => (
                        Sender::Finished(client.abandon(error), Err(error), Summary::Abandoned),
                        ClientAction::Close,
                    ),
                }
            },
            Sender::AwaitingAccept(client) => match client.await_accept(event) {
                Ok(client) => (Sender::Measuring(client), ClientAction::Measure),
                Err(client) => {
                    let error = client.error().unwrap();
                    part(client, Summary::Refused(error))
                },
            },
            Sender::Measuring(client) => match event {
                Event::Length(size) => {
                    let prefix = client.send_file(*size);
                    (
                        Sender::Prefixing(client, *size),
                        ClientAction::Send(slice_to_vec(prefix.as_slice())),
                    )
                },
                Event::Failed(fault) => abandon_sending(client, fault_to_error(*fault)),
                _ => abandon_sending(client, TransferError::ProtocolInvariantViolation),
            },
            Sender::Prefixing(client, size) => match written(event, 8) {
                Ok(()) => (Sender::Streaming(client, size), ClientAction::Stream),
                Err(error) => abandon_sending(client, error),
            },
            Sender::Streaming(client, size) => match written(event, size) {
                Ok(()) => (Sender::AwaitingReceipt(client), ClientAction::Receive),
                Err(error) => abandon_sending(client, error),
            },
            Sender::AwaitingReceipt(client) => {
                let acknowledged = reply_error(event, Message::Ack).is_none();
                (Sender::Finishing(client, acknowledged), say_message(Message::Goodbye))
            },
            Sender::Finishing(client, acknowledged) => match client.finish(event) {
                Ok(client) => part(client, Summary::Sent { acknowledged }),
                Err(client) => {
                    let error = client.error().unwrap();
                    (
                        Sender::Finished(
                            client.abandon(error),
                            Ok(()),
                            Summary::Sent { acknowledged },
                        ),
                        ClientAction::Close,
                    )
                },
            },
            Sender::Parting(client, failures, summary) => match written(event, 1) {
                Ok(()) => (Sender::AwaitingGoodbye(client, failures, summary), ClientAction::Receive),
                Err(error) => if failures >= MAX_GOODBYE_ATTEMPTS - 1 {
                    (
                        Sender::Finished(client.disconnect(Some(error)), Ok(()), summary),
                        ClientAction::Close,
                    )
                } else {
                    (Sender::Parting(client, failures + 1, summary), say_message(Message::Goodbye))
                },
            },
            Sender::AwaitingGoodbye(client, failures, summary) => {
                if reply_error(event, Message::Goodbye).is_none() {
                    (Sender::Finished(client.disconnect(None), Ok(()), summary), ClientAction::Close)
                } else {
                    (Sender::Parting(client, failures, summary), say_message(Message::Goodbye))
                }
            },
            Sender::Finished(client, result, summary) => (
                Sender::Finished(client, result, summary),
                ClientAction::Close,
            ),
        }
    }
}

} // verus!
