//! fshare, or "file share", pushes one file from a host to another over a
//! duplex byte stream.
//!
//! This crate is the protocol engine, written without any input or output of
//! its own: the message codec, the length-prefixed transfer framing, the rule
//! that names the destination file, and the two state machines (sender and
//! receiver). A machine is told what happened on the wire and answers with
//! the next operation to perform; the program around it owns the sockets and
//! files.
//!
//! * [`protocol`]: the four control messages and their one-byte codes
//! * [`channel`]: the outcomes of operations, and control messages read from them
//! * [`transfer`]: the size prefix and the reading of exactly the declared bytes
//! * [`path`]: base names, and the place of a received file in the directory
//! * [`client`]: the sender's phases, each a type of its own
//! * [`sender`]: the sending procedure as a state machine
//! * [`server`]: the receiver as a state machine
//! * [`integrity`]: what the two machines guarantee together
//!
//! ```text
//!   Client     |                             | Server
//!  ------------|                             |------------------
//! Disconnected |                             | Listening
//!              |-- <Successful Connection> ->|
//!    Connected |                             | Connected
//!              |---- FileTransferRequest --->|
//!    Connected |                             | Connected
//!              |<---------- Ack -------------|
//!  Negotiating |                             | Negotiating
//!              |----- <Stream FileName> ---->|
//!  Negotiating |                             | Negotiating
//!              |<---------- Ack -------------|
//!      Sending |                             | Receiving
//!              |--- <Stream File Content> -->|
//!      Sending |                             | Receiving
//!              |<---------- Ack -------------|
//!    Connected |                             | Connected
//!              |--------- Goodbye ---------->|
//!    Connected |                             | Connected
//!              |<-------- Goodbye -----------|
//! Disconnected |                             | Listening
//! ```
pub mod channel;
pub mod client;
pub mod error;
pub mod integrity;
pub mod path;
pub mod protocol;
pub mod sender;
pub mod server;
pub mod transfer;

pub use client::{Client, Disconnected};
pub use server::ServerBuilder;
