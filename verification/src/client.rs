//! The sender. Each phase of the protocol is a type of its own, so that a
//! client offers only the steps of the phase it is in: a
//! `Client<Negotiating>` is in the middle of exchanging the file name.
//!
//! No step touches a socket or a file. A step is handed the outcome of the
//! operation that the program around it performed, and decides what that
//! means for the protocol.
use crate::channel::{
    completed, receive_control, spec_completed, spec_receive_control, spec_written, written, Event,
};
use crate::error::TransferError;
use crate::path::{base_name, spec_base_name};
use crate::protocol::Message;
use crate::transfer::{size_prefix, spec_size_prefix};
use vstd::prelude::*;

verus! {

/// What a client holds of the file it is to send: whether the file has been
/// opened, and the base name under which it will be offered.
pub struct PendingFile {
    pub opened: bool,
    pub name: Option<Seq<u8>>,
}

/// The client is used to send files to the server. `error` holds why the
/// last step failed, if it did.
#[derive(Debug)]
pub struct Client<S> {
    state: S,
    pub error: Option<TransferError>,
}

/// No connection. A file may be loaded already.
#[derive(Debug)]
pub struct Disconnected {
    file: bool,
    filename: Option<Vec<u8>>,
}

/// Connected and idle: ready to request a transfer or to say goodbye.
#[derive(Debug)]
pub struct Connected {
    file: bool,
    filename: Option<Vec<u8>>,
}

/// The request was acknowledged and the file name is being exchanged.
#[derive(Debug)]
pub struct Negotiating {
    filename: Vec<u8>,
}

/// The file name was accepted and the file is being streamed.
#[derive(Debug)]
pub struct Sending {
    streaming: (),
}

impl<S> Client<S> {
    /// Why the last step failed, if it did: the value of `error`.
    pub closed spec fn spec_error(&self) -> Option<TransferError> {
        self.error
    }

    /// Why the last step failed, if it did: the value of `error`.
    #[verifier::when_used_as_spec(spec_error)]
    pub fn error(&self) -> (error: Option<TransferError>)
        ensures
            error == self.spec_error(),
    {
        self.error
    }
}

impl View for Client<Disconnected> {
    type V = PendingFile;

    closed spec fn view(&self) -> PendingFile {
        PendingFile {
            opened: self.state.file,
            name: match self.state.filename {
                Some(name) => Some(name@),
                None => None,
            },
        }
    }
}

impl View for Client<Connected> {
    type V = PendingFile;

    closed spec fn view(&self) -> PendingFile {
        PendingFile {
            opened: self.state.file,
            name: match self.state.filename {
                Some(name) => Some(name@),
                None => None,
            },
        }
    }
}

impl View for Client<Negotiating> {
    type V = Seq<u8>;

    /// The name that is being negotiated.
    closed spec fn view(&self) -> Seq<u8> {
        self.state.filename@
    }
}

/// What loading the file at `path` makes of what a client holds, when
/// opening it ended as `opened` says. The name is taken first: a path
/// without a base name changes nothing. A file that could not be opened
/// leaves the name set and the file as it was.
pub open spec fn spec_load(held: PendingFile, path: Seq<u8>, opened: Event) -> (
    PendingFile,
    Result<(), TransferError>,
) {
    match spec_base_name(path) {
        None => (held, Err(TransferError::EmptyFilename)),
        Some(name) => match spec_completed(opened) {
            Ok(()) => (PendingFile { opened: true, name: Some(name) }, Ok(())),
            Err(error) => (PendingFile { opened: held.opened, name: Some(name) }, Err(error)),
        },
    }
}

/// Whether a transfer can be requested: the message to send if a file and
/// its name are loaded, and else what is missing.
pub open spec fn spec_begin_request(held: PendingFile) -> Result<Message, TransferError> {
    if !held.opened {
        Err(TransferError::NoFileConfigured)
    } else if held.name is None {
        Err(TransferError::NoFilenameConfigured)
    } else {
        Ok(Message::FileTransferRequest)
    }
}

/// What is wrong with a reply where `expected` was due: nothing if it is
/// that message, `ProtocolViolation` if it is another, and else the error of
/// the read.
pub open spec fn spec_reply_error(reply: Event, expected: Message) -> Option<TransferError> {
    match spec_receive_control(reply) {
        Ok(message) => if message == expected {
            None
        } else {
            Some(TransferError::ProtocolViolation(message))
        },
        Err(error) => Some(error),
    }
}

/// What is wrong with the reply to a request: a missing file or name comes
/// first, then the reply itself.
pub open spec fn spec_request_error(held: PendingFile, reply: Event) -> Option<TransferError> {
    match spec_begin_request(held) {
        Err(error) => Some(error),
        Ok(_) => spec_reply_error(reply, Message::Ack),
    }
}

/// Checks a reply against the message that was due.
pub fn reply_error(reply: &Event, expected: Message) -> (error: Option<TransferError>)
    ensures
        error == spec_reply_error(*reply, expected),
{
    match receive_control(reply) {
        Ok(message) => if message == expected {
            None
        } else {
            Some(TransferError::ProtocolViolation(message))
        },
        Err(error) => Some(error),
    }
}

/// Takes the name of the file at `path` and, if opening it succeeded, marks
/// the file as loaded.
fn load(file: &mut bool, filename: &mut Option<Vec<u8>>, path: &[u8], opened: &Event) -> (loaded:
    Result<(), TransferError>)
    ensures
        (
            PendingFile {
                opened: *final(file),
                name: match *final(filename) {
                    Some(name) => Some(name@),
                    None => None,
                },
            },
            loaded,
        ) == spec_load(
            PendingFile {
                opened: *old(file),
                name: match *old(filename) {
                    Some(name) => Some(name@),
                    None => None,
                },
            },
            path@,
            *opened,
        ),
{
    match base_name(path) {
        None => Err(TransferError::EmptyFilename),
        Some(name) => {
            *filename = Some(name);
            match completed(opened) {
                Ok(()) => {
                    *file = true;
                    Ok(())
                },
                Err(error) => Err(error),
            }
        },
    }
}

impl Client<Disconnected> {
    /// A client with no connection and no file.
    pub fn new() -> (client: Client<Disconnected>)
        ensures
            client@ == (PendingFile { opened: false, name: None }),
            client.error() is None,
    {
        Client { state: Disconnected { file: false, filename: None }, error: None }
    }

    /// Loads the file at `path` for sending: keeps its base name, and marks
    /// it loaded if `opened` says that opening it succeeded. Fails with
    /// `EmptyFilename` if the path has no base name, and with the error of the
    /// open if there was one.
    pub fn load_file(&mut self, path: &[u8], opened: &Event) -> (loaded: Result<
        (),
        TransferError,
    >)
        ensures
            (final(self)@, loaded) == spec_load(old(self)@, path@, *opened),
            final(self).error() == old(self).error(),
    {
        load(&mut self.state.file, &mut self.state.filename, path, opened)
    }

    /// The same client, carrying `error`.
    pub fn failed(self, error: TransferError) -> (client: Client<Disconnected>)
        ensures
            client@ == self@,
            client.error() == Some(error),
    {
        Client { state: self.state, error: Some(error) }
    }

    /// Takes the outcome of a connection attempt. On success the client is
    /// connected and holds what it held; on failure it stays disconnected and
    /// carries the failure in `error`.
    pub fn connect(self, attempt: &Event) -> (connected: Result<
        Client<Connected>,
        Client<Disconnected>,
    >)
        ensures
            match connected {
                Ok(client) => {
                    &&& spec_completed(*attempt) is Ok
                    &&& client@ == self@
                    &&& client.error() is None
                },
                Err(client) => {
                    &&& spec_completed(*attempt) matches Err(error)
                    &&& client@ == self@
                    &&& client.error() == Some(error)
                },
            },
    {
        match completed(attempt) {
            Ok(()) => Ok(
                Client {
                    state: Connected { file: self.state.file, filename: self.state.filename },
                    error: None,
                },
            ),
            Err(error) => Err(
                Client {
                    state: Disconnected { file: self.state.file, filename: self.state.filename },
                    error: Some(error),
                },
            ),
        }
    }

    /// Whether a file has been loaded.
    pub fn has_file(&self) -> (loaded: bool)
        ensures
            loaded == self@.opened,
    {
        self.state.file
    }

    /// The name under which the loaded file will be offered.
    pub fn filename(&self) -> (name: Option<&Vec<u8>>)
        ensures
            match name {
                Some(bytes) => self@.name == Some(bytes@),
                None => self@.name is None,
            },
    {
        self.state.filename.as_ref()
    }
}

impl Client<Connected> {
    /// Loads the file at `path` for sending, as a disconnected client does.
    pub fn load_file(&mut self, path: &[u8], opened: &Event) -> (loaded: Result<
        (),
        TransferError,
    >)
        ensures
            (final(self)@, loaded) == spec_load(old(self)@, path@, *opened),
            final(self).error() == old(self).error(),
    {
        load(&mut self.state.file, &mut self.state.filename, path, opened)
    }

    /// Begins a request: the message to send, `FileTransferRequest`, if a
    /// file and its name are loaded. Fails with `NoFileConfigured` without a
    /// file, and with `NoFilenameConfigured` with a file but no name.
    pub fn begin_request(&self) -> (message: Result<Message, TransferError>)
        ensures
            message == spec_begin_request(self@),
    {
        if !self.state.file {
            Err(TransferError::NoFileConfigured)
        } else if self.state.filename.is_none() {
            Err(TransferError::NoFilenameConfigured)
        } else {
            Ok(Message::FileTransferRequest)
        }
    }

    /// Takes the reply to `FileTransferRequest`. If a file and its name are
    /// loaded and the reply is `Ack`, the client goes on to negotiate the
    /// name. Otherwise it stays connected, holds what it held, and carries in
    /// `error` what was wrong: what is missing, the message that came in
    /// place of `Ack`, or the error of the read.
    pub fn request(self, reply: &Event) -> (requested: Result<
        Client<Negotiating>,
        Client<Connected>,
    >)
        ensures
            match requested {
                Ok(client) => {
                    &&& spec_request_error(self@, *reply) is None
                    &&& Some(client@) == self@.name
                    &&& client.error() is None
                },
                Err(client) => {
                    &&& spec_request_error(self@, *reply) is Some
                    &&& client@ == self@
                    &&& client.error() == spec_request_error(self@, *reply)
                },
            },
    {
        if !self.state.file {
            return Err(Client { state: self.state, error: Some(TransferError::NoFileConfigured) });
        }
        match self.state.filename {
            None => Err(
                Client {
                    state: Connected { file: true, filename: None },
                    error: Some(TransferError::NoFilenameConfigured),
                },
            ),
            Some(name) => match reply_error(reply, Message::Ack) {
                None => Ok(Client { state: Negotiating { filename: name }, error: None }),
                Some(error) => Err(
                    Client {
                        state: Connected { file: true, filename: Some(name) },
                        error: Some(error),
                    },
                ),
            },
        }
    }

    /// Gives the connection up: the client holds what it held, and `error`
    /// says why the connection ended, if not in good order.
    pub fn disconnect(self, error: Option<TransferError>) -> (client: Client<Disconnected>)
        ensures
            client@ == self@,
            client.error() == error,
    {
        Client {
            state: Disconnected { file: self.state.file, filename: self.state.filename },
            error,
        }
    }

    /// Whether a file has been loaded.
    pub fn has_file(&self) -> (loaded: bool)
        ensures
            loaded == self@.opened,
    {
        self.state.file
    }

    /// The name under which the loaded file will be offered.
    pub fn filename(&self) -> (name: Option<&Vec<u8>>)
        ensures
            match name {
                Some(bytes) => self@.name == Some(bytes@),
                None => self@.name is None,
            },
    {
        self.state.filename.as_ref()
    }
}

impl Client<Negotiating> {
    /// The name that is being negotiated.
    pub fn filename(&self) -> (name: &Vec<u8>)
        ensures
            name@ == self@,
    {
        &self.state.filename
    }

    /// The negotiation payload to send: the bytes of the file's base name,
    /// with no length before them and no delimiter behind.
    pub fn send_filename(&self) -> (payload: Vec<u8>)
        ensures
            payload@ == self@,
    {
        self.state.filename.clone()
    }

    /// The name was accepted: the file can be streamed. Whether it was
    /// accepted is for `await_accept` to tell from the reply.
    pub fn accept(self) -> (client: Client<Sending>)
        ensures
            client.error() is None,
    {
        Client { state: Sending { streaming: () }, error: None }
    }

    /// The name was not accepted: the negotiation is abandoned, and the
    /// client is connected again with no file and no name.
    pub fn deny(self) -> (client: Client<Connected>)
        ensures
            client@ == (PendingFile { opened: false, name: None }),
            client.error() is None,
    {
        Client { state: Connected { file: false, filename: None }, error: None }
    }

    /// Abandons the negotiation and the connection with it: the client is
    /// disconnected with no file and no name, and carries `error`.
    pub fn abandon(self, error: TransferError) -> (client: Client<Disconnected>)
        ensures
            client@ == (PendingFile { opened: false, name: None }),
            client.error() == Some(error),
    {
        Client { state: Disconnected { file: false, filename: None }, error: Some(error) }
    }

    /// Takes the reply to the file name. `Ack` accepts. Anything else denies:
    /// the client is connected again with no file and no name, and `error`
    /// holds the message that came in place of `Ack`, or the error of the
    /// read.
    pub fn await_accept(self, reply: &Event) -> (accepted: Result<
        Client<Sending>,
        Client<Connected>,
    >)
        ensures
            match accepted {
                Ok(client) => {
                    &&& spec_receive_control(*reply) == Ok::<Message, TransferError>(Message::Ack)
                    &&& client.error() is None
                },
                Err(client) => {
                    &&& spec_receive_control(*reply) != Ok::<Message, TransferError>(Message::Ack)
                    &&& client@ == (PendingFile { opened: false, name: None })
                    &&& client.error() == spec_reply_error(*reply, Message::Ack)
                },
            },
    {
        match reply_error(reply, Message::Ack) {
            None => Ok(self.accept()),
            Some(error) => {
                let mut client = self.deny();
                client.error = Some(error);
                Err(client)
            },
        }
    }
}

impl Client<Sending> {
    /// The size prefix to write before the content of a file of `size`
    /// bytes: the size as eight bytes, most significant first.
    pub fn send_file(&self, size: u64) -> (prefix: [u8; 8])
        ensures
            prefix@ == spec_size_prefix(size),
    {
        size_prefix(size)
    }

    /// Abandons the transfer and the connection with it: the client is
    /// disconnected with no file and no name, and carries `error`.
    pub fn abandon(self, error: TransferError) -> (client: Client<Disconnected>)
        ensures
            client@ == (PendingFile { opened: false, name: None }),
            client.error() == Some(error),
    {
        Client { state: Disconnected { file: false, filename: None }, error: Some(error) }
    }

    /// Takes the outcome of writing `Goodbye` after the file. If the byte was
    /// written, the transfer is over: the client is connected again with no
    /// file and no name. If not, it stays as it is and carries `IoError` (or
    /// `ProtocolInvariantViolation` for an outcome that is not that of a
    /// write), and `finish` may be tried again.
    pub fn finish(self, sent: &Event) -> (finished: Result<Client<Connected>, Client<Sending>>)
        ensures
            match finished {
                Ok(client) => {
                    &&& spec_written(*sent, 1) is Ok
                    &&& client@ == (PendingFile { opened: false, name: None })
                    &&& client.error() is None
                },
                Err(client) => {
                    &&& spec_written(*sent, 1) matches Err(error)
                    &&& client.error() == Some(error)
                },
            },
    {
        match written(sent, 1) {
            Ok(()) => Ok(Client { state: Connected { file: false, filename: None }, error: None }),
            Err(error) => Err(Client { state: self.state, error: Some(error) }),
        }
    }
}

} // verus!
