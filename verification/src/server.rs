//! The receiver. A server takes one connection at a time and tracks it by
//! phase: connected, negotiating the file name, receiving the file.
//!
//! The server performs no operation itself. `run` takes the outcome of the
//! operation it asked for last and answers with the next one; the program
//! around it listens, reads, writes and creates files:
//!
//! ```text
//! let mut server = builder.build()?;
//! let mut action = ServerAction::Accept;
//! loop {
//!     let event = perform(action);
//!     action = server.run(&event);
//! }
//! ```
pub mod laws;
pub mod model;

use crate::channel::{
    completed, fault_to_error, receive_control, send_control, spec_completed, written, Event,
};
use crate::error::TransferError;
use crate::path::{destination, is_utf8, join};
use crate::protocol::{Message, State};
use crate::server::model::{
    reply, spec_abort, spec_built, spec_close, spec_drop, spec_goodbye, spec_handle_message,
    spec_next_chunk, spec_probe, spec_probe_name, spec_progress, spec_receive_chunk,
    spec_receive_file, spec_receive_filename, spec_receive_prefix, spec_run, ServerActionView,
    ServerView,
};
use crate::transfer::{declared_size, take_chunk};
use vstd::prelude::*;

verus! {

/// How often the server tries to write `Goodbye` before it gives the
/// connection up.
pub const MAX_GOODBYE_ATTEMPTS: u8 = 10;

/// The operation that the server has asked for and whose outcome it awaits.
#[derive(Clone, Copy, Debug, PartialEq, Eq, Structural)]
pub enum Pending {
    /// The next connection.
    Accept,
    /// A control byte, in the connected phase.
    Control,
    /// The write of `Ack` in reply to a request.
    RequestAck,
    /// The read of the file name.
    Name,
    /// The write of `Ack` in reply to the file name.
    NameAck,
    /// The read of the size prefix.
    Prefix,
    /// The creation of the destination file.
    Create,
    /// A read of file content.
    Chunk,
    /// The write of this many bytes to the destination file.
    Append(u64),
    /// The flush of the destination file.
    Flush,
    /// The write of `Ack` in reply to the file.
    FileAck,
    /// The write of `Goodbye`.
    Goodbye,
    /// The half-close of the connection.
    Shutdown,
}

/// The operation that the server asks for.
#[derive(Debug, PartialEq, Eq)]
pub enum ServerAction {
    /// Drop the connection, if there is one, and accept the next, with the
    /// read deadline set.
    Accept,
    /// Read one control byte from the connection.
    Receive,
    /// Write these bytes to the connection.
    Send(Vec<u8>),
    /// Read what is buffered on the connection, in one read, and consume it
    /// all: the file name.
    ReadName,
    /// Read exactly eight bytes from the connection: the size prefix.
    ReadPrefix,
    /// Create the destination file at this path.
    Create(Vec<u8>),
    /// Read what is buffered on the connection, in one read, without
    /// consuming it.
    ReadChunk,
    /// Write these bytes to the destination file, and consume as many from
    /// the connection.
    Append(Vec<u8>),
    /// Flush the destination file.
    Flush,
    /// Close the connection for reading.
    Shutdown,
}

impl View for ServerAction {
    type V = ServerActionView;

    open spec fn view(&self) -> ServerActionView {
        match *self {
            ServerAction::Accept => ServerActionView::Accept,
            ServerAction::Receive => ServerActionView::Receive,
            ServerAction::Send(bytes) => ServerActionView::Send(bytes@),
            ServerAction::ReadName => ServerActionView::ReadName,
            ServerAction::ReadPrefix => ServerActionView::ReadPrefix,
            ServerAction::Create(path) => ServerActionView::Create(path@),
            ServerAction::ReadChunk => ServerActionView::ReadChunk,
            ServerAction::Append(bytes) => ServerActionView::Append(bytes@),
            ServerAction::Flush => ServerActionView::Flush,
            ServerAction::Shutdown => ServerActionView::Shutdown,
        }
    }
}

/// The server needs to know what directory to save incoming files to.
#[derive(Debug)]
pub struct ServerBuilder {
    directory: Option<Vec<u8>>,
}

/// The server tracks one connection and acknowledges incoming files.
#[derive(Debug)]
pub struct Server {
    connection: bool,
    directory: Vec<u8>,
    state: Option<State>,
    filename: Option<Vec<u8>>,
    pending: Pending,
    remaining: u64,
    failures: u8,
    error: Option<TransferError>,
}

impl View for ServerBuilder {
    type V = Option<Seq<u8>>;

    /// The directory that was configured.
    closed spec fn view(&self) -> Option<Seq<u8>> {
        match self.directory {
            Some(path) => Some(path@),
            None => None,
        }
    }
}

impl View for Server {
    type V = ServerView;

    closed spec fn view(&self) -> ServerView {
        ServerView {
            connected: self.connection,
            directory: self.directory@,
            state: self.state,
            filename: match self.filename {
                Some(name) => Some(name@),
                None => None,
            },
            pending: self.pending,
            remaining: self.remaining,
            failures: self.failures as nat,
            error: self.error,
        }
    }
}

impl ServerBuilder {
    /// A builder with no directory configured.
    pub fn new() -> (builder: Self)
        ensures
            builder@ is None,
    {
        ServerBuilder { directory: None }
    }

    /// The path of the throwaway file to create and remove in `path`, to
    /// find out whether the directory can be written to.
    pub fn probe(path: &[u8]) -> (file: Vec<u8>)
        ensures
            file@ == spec_probe(path@),
    {
        let name: [u8; 17] = [
            102,
            115,
            104,
            97,
            114,
            101,
            95,
            119,
            114,
            105,
            116,
            101,
            95,
            116,
            101,
            115,
            116,
        ];
        assert(name@ =~= spec_probe_name());
        join(path, name.as_slice())
    }

    /// Configures `path` as the directory to save received files to, if
    /// `probed` says that the probe file could be created and removed there.
    /// Otherwise the builder stays as it is, and the error of the probe is
    /// returned.
    pub fn directory(&mut self, path: &[u8], probed: &Event) -> (configured: Result<
        (),
        TransferError,
    >)
        ensures
            configured == spec_completed(*probed),
            final(self)@ == if configured is Ok {
                Some(path@)
            } else {
                old(self)@
            },
    {
        match completed(probed) {
            Ok(()) => {
                self.directory = Some(vstd::slice::slice_to_vec(path));
                Ok(())
            },
            Err(error) => Err(error),
        }
    }

    /// Builds the server. Fails with `NoDirectoryConfigured` if no directory
    /// was configured. The first operation that the program performs for a
    /// server is `Accept`.
    pub fn build(self) -> (built: Result<Server, TransferError>)
        ensures
            match built {
                Ok(server) => self@ matches Some(directory) && server@ == spec_built(directory),
                Err(error) => self@ is None && error == TransferError::NoDirectoryConfigured,
            },
    {
        match self.directory {
            None => Err(TransferError::NoDirectoryConfigured),
            Some(directory) => Ok(
                Server {
                    connection: false,
                    directory,
                    state: None,
                    filename: None,
                    pending: Pending::Accept,
                    remaining: 0,
                    failures: 0,
                    error: None,
                },
            ),
        }
    }
}

impl Server {
    /// Takes the outcome of the operation that was asked for last, and
    /// answers with the next operation. No outcome ends the server: a
    /// connection that fails is closed by a best-effort goodbye, its error is
    /// kept, and the next connection is accepted.
    pub fn run(&mut self, event: &Event) -> (action: ServerAction)
        ensures
            (final(self)@, action@) == spec_run(old(self)@, *event),
    {
        match self.pending {
            Pending::Accept => match completed(event) {
                Ok(()) => {
                    self.connection = true;
                    self.state = Some(State::Connected);
                    self.filename = None;
                    self.error = None;
                    self.progress_protocol()
                },
                Err(error) => self.drop_connection(Some(error)),
            },
            Pending::Control => match receive_control(event) {
                Ok(message) => self.handle_message(message),
                Err(error) => self.abort(error),
            },
            Pending::RequestAck => match written(event, 1) {
                Ok(()) => {
                    self.state = Some(State::Negotiating);
                    self.progress_protocol()
                },
                Err(error) => self.abort(error),
            },
            Pending::Name => self.receive_filename(event),
            Pending::NameAck => match written(event, 1) {
                Ok(()) => {
                    self.state = Some(State::Receiving);
                    self.progress_protocol()
                },
                Err(error) => self.abort(error),
            },
            Pending::FileAck => match written(event, 1) {
                Ok(()) => {
                    self.state = Some(State::Connected);
                    self.progress_protocol()
                },
                Err(error) => self.abort(error),
            },
            Pending::Goodbye | Pending::Shutdown => self.close(event),
            _ => self.receive_file(event),
        }
    }

    /// Whether a connection is held.
    pub fn is_connected(&self) -> (connected: bool)
        ensures
            connected == self@.connected,
    {
        self.connection
    }

    /// The directory that received files are written to.
    pub fn directory(&self) -> (directory: &Vec<u8>)
        ensures
            directory@ == self@.directory,
    {
        &self.directory
    }

    /// The phase of the connection; unset while there is none.
    pub fn state(&self) -> (state: Option<State>)
        ensures
            state == self@.state,
    {
        self.state
    }

    /// The file name as it was received.
    pub fn filename(&self) -> (name: Option<&Vec<u8>>)
        ensures
            match name {
                Some(bytes) => self@.filename == Some(bytes@),
                None => self@.filename is None,
            },
    {
        self.filename.as_ref()
    }

    /// The operation whose outcome is awaited.
    pub fn pending(&self) -> (pending: Pending)
        ensures
            pending == self@.pending,
    {
        self.pending
    }

    /// How many bytes of the file are still owed.
    pub fn remaining(&self) -> (remaining: u64)
        ensures
            remaining == self@.remaining,
    {
        self.remaining
    }

    /// Why the last connection was given up or could not be closed in good
    /// order. Unset when a new connection is accepted.
    pub fn error(&self) -> (error: Option<TransferError>)
        ensures
            error == self@.error,
    {
        self.error
    }

    /// The operation that writes `message`.
    fn reply(message: Message) -> (action: ServerAction)
        ensures
            action@ == reply(message),
    {
        ServerAction::Send(send_control(message))
    }

    /// Drops the connection and awaits the next.
    fn drop_connection(&mut self, error: Option<TransferError>) -> (action: ServerAction)
        ensures
            (final(self)@, action@) == spec_drop(old(self)@, error),
    {
        self.connection = false;
        self.state = None;
        self.filename = None;
        self.pending = Pending::Accept;
        self.error = error;
        ServerAction::Accept
    }

    /// Begins goodbye-and-close.
    fn goodbye(&mut self) -> (action: ServerAction)
        ensures
            (final(self)@, action@) == spec_goodbye(old(self)@),
    {
        self.pending = Pending::Goodbye;
        self.failures = 0;
        Self::reply(Message::Goodbye)
    }

    /// Gives the connection up on `error`.
    fn abort(&mut self, error: TransferError) -> (action: ServerAction)
        ensures
            (final(self)@, action@) == spec_abort(old(self)@, error),
    {
        self.error = Some(error);
        self.goodbye()
    }

    /// Asks for the operation that the phase of the connection calls for.
    fn progress_protocol(&mut self) -> (action: ServerAction)
        ensures
            (final(self)@, action@) == spec_progress(old(self)@),
    {
        match self.state {
            Some(State::Connected) => {
                self.pending = Pending::Control;
                ServerAction::Receive
            },
            Some(State::Negotiating) => {
                self.pending = Pending::Name;
                ServerAction::ReadName
            },
            Some(State::Receiving) => {
                self.pending = Pending::Prefix;
                ServerAction::ReadPrefix
            },
            None => self.drop_connection(Some(TransferError::ProtocolInvariantViolation)),
        }
    }

    /// Handles a control message that arrived in the connected phase.
    fn handle_message(&mut self, message: Message) -> (action: ServerAction)
        ensures
            (final(self)@, action@) == spec_handle_message(old(self)@, message),
    {
        match message {
            Message::Goodbye => self.goodbye(),
            Message::FileTransferRequest => {
                self.pending = Pending::RequestAck;
                Self::reply(Message::Ack)
            },
            _ => self.abort(TransferError::ProtocolViolation(message)),
        }
    }

    /// Handles the outcome of the read of the file name.
    fn receive_filename(&mut self, event: &Event) -> (action: ServerAction)
        ensures
            (final(self)@, action@) == spec_receive_filename(old(self)@, *event),
    {
        match event {
            Event::Payload(payload) => if is_utf8(payload.as_slice()) {
                self.filename = Some(payload.clone());
                self.pending = Pending::NameAck;
                Self::reply(Message::Ack)
            } else {
                self.abort(TransferError::InvalidFilename)
            },
            Event::Closed => self.abort(TransferError::IoError),
            Event::Failed(fault) => self.abort(fault_to_error(*fault)),
            _ => self.abort(TransferError::ProtocolInvariantViolation),
        }
    }

    /// Asks for the next operation on the file body.
    fn next_chunk(&mut self) -> (action: ServerAction)
        ensures
            (final(self)@, action@) == spec_next_chunk(old(self)@),
    {
        if self.remaining == 0 {
            self.pending = Pending::Flush;
            ServerAction::Flush
        } else {
            self.pending = Pending::Chunk;
            ServerAction::ReadChunk
        }
    }

    /// Handles the outcome of the read of the size prefix.
    fn receive_prefix(&mut self, event: &Event) -> (action: ServerAction)
        ensures
            (final(self)@, action@) == spec_receive_prefix(old(self)@, *event),
    {
        match event {
            Event::Payload(prefix) => match declared_size(prefix.as_slice()) {
                None => self.abort(TransferError::ProtocolInvariantViolation),
                Some(size) => {
                    let place = match &self.filename {
                        None => Err(TransferError::ProtocolInvariantViolation),
                        Some(name) => match destination(
                            self.directory.as_slice(),
                            name.as_slice(),
                        ) {
                            None => Err(TransferError::EmptyFilename),
                            Some(path) => Ok(path),
                        },
                    };
                    match place {
                        Err(error) => self.abort(error),
                        Ok(path) => {
                            self.remaining = size;
                            self.pending = Pending::Create;
                            ServerAction::Create(path)
                        },
                    }
                },
            },
            Event::Closed => self.abort(TransferError::ShortRead),
            Event::Failed(fault) => self.abort(fault_to_error(*fault)),
            _ => self.abort(TransferError::ProtocolInvariantViolation),
        }
    }

    /// Handles the outcome of a read of file content.
    fn receive_chunk(&mut self, event: &Event) -> (action: ServerAction)
        ensures
            (final(self)@, action@) == spec_receive_chunk(old(self)@, *event),
    {
        match event {
            Event::Payload(chunk) => if chunk.len() == 0 {
                self.abort(TransferError::ShortRead)
            } else {
                let taken = take_chunk(self.remaining, chunk.as_slice());
                self.pending = Pending::Append(taken.len() as u64);
                ServerAction::Append(taken)
            },
            Event::Closed => self.abort(TransferError::ShortRead),
            Event::Failed(fault) => self.abort(fault_to_error(*fault)),
            _ => self.abort(TransferError::ProtocolInvariantViolation),
        }
    }

    /// Handles an outcome in the receiving phase: the size prefix, the
    /// creation of the destination file, the reads and writes of the body,
    /// the flush.
    fn receive_file(&mut self, event: &Event) -> (action: ServerAction)
        ensures
            (final(self)@, action@) == spec_receive_file(old(self)@, *event),
    {
        match self.pending {
            Pending::Prefix => self.receive_prefix(event),
            Pending::Create => match completed(event) {
                Ok(()) => self.next_chunk(),
                Err(error) => self.abort(error),
            },
            Pending::Chunk => self.receive_chunk(event),
            Pending::Append(count) => match written(event, count) {
                Ok(()) => if count <= self.remaining {
                    self.remaining = self.remaining - count;
                    self.next_chunk()
                } else {
                    self.abort(TransferError::ProtocolInvariantViolation)
                },
                Err(error) => self.abort(error),
            },
            Pending::Flush => match completed(event) {
                Ok(()) => {
                    self.pending = Pending::FileAck;
                    Self::reply(Message::Ack)
                },
                Err(error) => self.abort(error),
            },
            _ => self.abort(TransferError::ProtocolInvariantViolation),
        }
    }

    /// Handles an outcome of goodbye-and-close.
    fn close(&mut self, event: &Event) -> (action: ServerAction)
        ensures
            (final(self)@, action@) == spec_close(old(self)@, *event),
    {
        match self.pending {
            Pending::Goodbye => match written(event, 1) {
                Ok(()) => {
                    self.pending = Pending::Shutdown;
                    ServerAction::Shutdown
                },
                Err(error) => if self.failures >= MAX_GOODBYE_ATTEMPTS - 1 {
                    self.drop_connection(Some(error))
                } else {
                    self.failures = self.failures + 1;
                    Self::reply(Message::Goodbye)
                },
            },
            _ => match completed(event) {
                Ok(()) => {
                    let kept = self.error;
                    self.drop_connection(kept)
                },
                Err(error) => self.drop_connection(Some(error)),
            },
        }
    }
}

} // verus!
