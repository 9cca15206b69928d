//! The activation exchange that opens a session.
//!
//! Right after the transport has connected, the client sends a request to
//! start data transfer and reads one telegram. The session is usable only if
//! that telegram is a control frame which confirms the start of data
//! transfer. Neither telegram of the exchange is numbered. The exchange ends
//! in [`crate::client::Client::finish_handshake`], which starts the
//! numbering over once the reply has opened the session.

use crate::codec::header_of;
use crate::codec::inspect;
use crate::codec::short_image;
use crate::codec::write_telegram;
use crate::frame::FrameHeader;
use iec60870_5::telegram104::Telegram104;
use vstd::prelude::*;

verus! {

/// Why the peer's reply does not open the session.
#[derive(Copy, Clone, PartialEq, Eq, Debug, Structural)]
pub enum HandshakeError {
    /// The reply is not a control frame.
    UnexpectedReply,
    /// The reply is a control frame, but no confirmation of the start of
    /// data transfer.
    NotConfirmed,
}

impl HandshakeError {
    /// The text of the error.
    pub open spec fn text(self) -> Seq<char> {
        match self {
            HandshakeError::UnexpectedReply => "unexpected reply"@,
            HandshakeError::NotConfirmed => "chat reply is not start_dt confirmation"@,
        }
    }

    /// Renders the error for a log line or an error value.
    pub fn to_string(&self) -> (s: String)
        ensures
            s@ == self.text(),
    {
        match self {
            HandshakeError::UnexpectedReply => "unexpected reply".to_owned(),
            HandshakeError::NotConfirmed => "chat reply is not start_dt confirmation".to_owned(),
        }
    }
}

/// What a reply with header `h` means for the handshake.
pub open spec fn verdict(h: FrameHeader) -> Result<(), HandshakeError> {
    if !(h is U) {
        Err(HandshakeError::UnexpectedReply)
    } else if !h.is_start_dt_confirmation() {
        Err(HandshakeError::NotConfirmed)
    } else {
        Ok(())
    }
}

/// Judges the header of the peer's reply.
pub fn judge(h: FrameHeader) -> (r: Result<(), HandshakeError>)
    ensures
        r == verdict(h),
{
    match h {
        FrameHeader::U { start_dt, con, .. } => {
            if !start_dt || !con {
                Err(HandshakeError::NotConfirmed)
            } else {
                Ok(())
            }
        },
        _ => Err(HandshakeError::UnexpectedReply),
    }
}

/// Judges the peer's reply to the request.
pub fn check_reply(reply: &Telegram104) -> (r: Result<(), HandshakeError>)
    ensures
        r == verdict(header_of(*reply)),
{
    judge(inspect(reply))
}

/// The octets of the request to start data transfer.
pub fn request() -> (octets: Vec<u8>)
    ensures
        octets@ == short_image(FrameHeader::start_dt_request()),
{
    let frame = Telegram104::new_start_dt();
    write_telegram(&frame).unwrap()
}

} // verus!
