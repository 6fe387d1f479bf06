//! The four control messages and their one-byte wire form.
use vstd::prelude::*;
use vstd::std_specs::convert::TryFromSpecImpl;

verus! {

/// Phases of one connection, as the receiver tracks them.
#[derive(Clone, Copy, Debug, PartialEq, Eq, Structural)]
pub enum State {
    Connected,
    Negotiating,
    Receiving,
}

/// Messages passed between client and server. They carry no payload.
#[derive(Clone, Copy, Debug, PartialEq, Eq, Structural)]
pub enum Message {
    FileTransferRequest,
    RequestDenied,
    Ack,
    Goodbye,
}

/// Why a byte is not a control message.
#[derive(Clone, Copy, Debug, PartialEq, Eq, Structural)]
pub enum DecodeError {
    /// The byte is none of the four codes.
    UnknownMessage(u8),
}

/// The code of a message on the wire.
pub open spec fn encode(message: Message) -> u8 {
    match message {
        Message::FileTransferRequest => 30,
        Message::RequestDenied => 43,
        Message::Ack => 200,
        Message::Goodbye => 255,
    }
}

/// The message that a byte stands for, if it is one of the four codes.
pub open spec fn decode(byte: u8) -> Result<Message, DecodeError> {
    if byte == 30 {
        Ok(Message::FileTransferRequest)
    } else if byte == 43 {
        Ok(Message::RequestDenied)
    } else if byte == 200 {
        Ok(Message::Ack)
    } else if byte == 255 {
        Ok(Message::Goodbye)
    } else {
        Err(DecodeError::UnknownMessage(byte))
    }
}

impl Message {
    /// The wire form of the message: its code, as one byte.
    pub fn as_bytes(self) -> (bytes: [u8; 1])
        ensures
            bytes@ == seq![encode(self)],
    {
        let bytes: [u8; 1] = match self {
            Message::FileTransferRequest => [30],
            Message::RequestDenied => [43],
            Message::Ack => [200],
            Message::Goodbye => [255],
        };
        assert(bytes@ =~= seq![encode(self)]);
        bytes
    }
}

impl TryFrom<u8> for Message {
    type Error = DecodeError;

    /// Reads a control byte. Any byte but the four codes is refused, and the
    /// error holds the byte.
    fn try_from(byte: u8) -> (decoded: Result<Self, Self::Error>) {
        match byte {
            30 => Ok(Message::FileTransferRequest),
            43 => Ok(Message::RequestDenied),
            200 => Ok(Message::Ack),
            255 => Ok(Message::Goodbye),
            _ => Err(DecodeError::UnknownMessage(byte)),
        }
    }
}

impl TryFromSpecImpl<u8> for Message {
    open spec fn obeys_try_from_spec() -> bool {
        true
    }

    open spec fn try_from_spec(byte: u8) -> Result<Self, Self::Error> {
        decode(byte)
    }
}

/// Decoding undoes encoding: every message comes back from its own code.
pub proof fn lemma_decode_encode(message: Message)
    ensures
        decode(encode(message)) == Ok::<Message, DecodeError>(message),
{
}

/// A byte decodes to a message exactly when it is that message's code, so no
/// two messages share a code and encoding undoes decoding.
pub proof fn lemma_encode_decode(byte: u8, message: Message)
    ensures
        decode(byte) == Ok::<Message, DecodeError>(message) <==> byte == encode(message),
{
}

/// Every byte outside the four codes is refused, with that byte in the error.
pub proof fn lemma_decode_unknown(byte: u8)
    ensures
        (byte != 30 && byte != 43 && byte != 200 && byte != 255) <==> decode(byte) == Err::<
            Message,
            DecodeError,
        >(DecodeError::UnknownMessage(byte)),
        decode(byte) is Err <==> decode(byte) == Err::<Message, DecodeError>(
            DecodeError::UnknownMessage(byte),
        ),
{
}

} // verus!
