//! The session layer of an IEC 60870-5-104 client.
//!
//! A session is a numbered, two-way exchange of telegrams over one
//! connection. This crate holds its rules: how outgoing information frames
//! are numbered and incoming ones checked, how the activation exchange opens
//! a session, how the reader tells the response to a command from data the
//! peer pushes, how a command meets its response or gives up, and what the
//! periodic workers send. Telegrams themselves come from the `iec60870_5`
//! crate, which builds and serialises them.
//!
//! Nothing in here blocks, takes a lock or touches a socket. The caller owns
//! the transport and the threads; it calls in here for every decision and
//! carries out what comes back.

pub mod client;
pub mod codec;
pub mod correlator;
pub mod frame;
pub mod handshake;
pub mod pinger;
pub mod reader;
pub mod restart;
pub mod sequence;

pub use crate::client::Client;
pub use crate::pinger::PingKind;
pub use crate::pinger::Pinger;
pub use crate::reader::Reader;
pub use crate::restart::RestartEvent;
