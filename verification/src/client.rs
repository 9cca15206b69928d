//! The client side of a session: the send path and the issue of commands.
//!
//! A [`Client`] holds what the sender and the reader of one connection
//! share: the sequence counters and the rendezvous slot. It computes what is
//! to be written and decides what happens to the slot; taking locks,
//! writing to the transport and waiting are left to the caller, who calls
//! in here while it holds the locks the send path asks for.
//!
//! Sending takes two steps. [`Client::send`] numbers and serialises a
//! telegram; [`Client::written`] spends its number after the octets have
//! been written. A telegram that fails on the way spends nothing, so the
//! information frames that are sent are numbered without a gap.

use crate::codec::header_of;
use crate::codec::inspect;
use crate::codec::short_image;
use crate::codec::wire_image;
use crate::codec::write_telegram;
use crate::correlator::CommandError;
use crate::correlator::Correlator;
use crate::correlator::Poll;
use crate::correlator::Slot;
use crate::frame::FrameHeader;
use crate::handshake::check_reply;
use crate::handshake::verdict;
use crate::handshake::HandshakeError;
use crate::pinger::PingKind;
use crate::pinger::Pinger;
use crate::reader::Reader;
use crate::sequence::lemma_counters_count;
use crate::sequence::outgoing;
use crate::sequence::sent_information;
use crate::sequence::Exchange;
use crate::sequence::Numbering;
use crate::sequence::SequenceError;
use crate::sequence::SequenceTracker;
use core::time::Duration;
use iec60870_5::telegram104::Telegram104;
use vstd::prelude::*;

verus! {

/// Why a telegram could not be serialised.
#[derive(Copy, Clone, PartialEq, Eq, Debug, Structural)]
pub enum EncodeError {
    /// A sequence number of the telegram lies outside the sequence space.
    OutOfSequenceSpace,
    /// The codec refuses the telegram, as it does one that is too long.
    Refused,
}

impl EncodeError {
    /// The text of the error.
    pub open spec fn text(self) -> Seq<char> {
        match self {
            EncodeError::OutOfSequenceSpace => "sequence number out of range"@,
            EncodeError::Refused => "telegram refused by the codec"@,
        }
    }

    /// Renders the error for a log line or an error value.
    pub fn to_string(&self) -> (s: String)
        ensures
            s@ == self.text(),
    {
        match self {
            EncodeError::OutOfSequenceSpace => "sequence number out of range".to_owned(),
            EncodeError::Refused => "telegram refused by the codec".to_owned(),
        }
    }
}

/// A telegram that is ready to leave.
#[derive(Debug)]
pub struct Outgoing {
    /// The octets to write.
    pub octets: Vec<u8>,
    /// The header the telegram leaves with. It goes back to
    /// [`Client::written`] once the octets are written.
    pub header: FrameHeader,
}

/// A command that was issued.
#[derive(Debug)]
pub struct Issued {
    /// The ticket to wait with.
    pub ticket: u64,
    /// The telegram of the command.
    pub outgoing: Outgoing,
}

/// What client and reader share, as a mathematical value.
pub struct Session {
    pub numbering: Numbering,
    pub slot: Slot,
}

impl Session {
    /// What client and reader share before anything has passed.
    pub open spec fn initial() -> Session {
        Session { numbering: Numbering::initial(), slot: Slot::initial() }
    }

    /// What client and reader share after the activation exchange ended
    /// with a reply with header `reply`: a reply that opens the session
    /// starts the numbering over, any other leaves everything as it is.
    pub open spec fn after_handshake(self, reply: FrameHeader) -> Session {
        if verdict(reply) is Ok {
            Session { numbering: Numbering::initial(), slot: self.slot }
        } else {
            self
        }
    }
}

/// The octets of a telegram, or the reason why it has none.
pub open spec fn encoding(t: Telegram104) -> Result<Seq<u8>, EncodeError> {
    if !header_of(t).in_sequence_space() {
        Err(EncodeError::OutOfSequenceSpace)
    } else if wire_image(t) is None {
        Err(EncodeError::Refused)
    } else {
        Ok(wire_image(t).unwrap())
    }
}

/// Serialises a telegram. A control frame or an acknowledgement whose
/// number lies in the sequence space always has octets: the six of
/// [`short_image`].
pub fn encode(frame: &Telegram104) -> (r: Result<Vec<u8>, EncodeError>)
    ensures
        r is Ok <==> encoding(*frame) is Ok,
        r matches Ok(octets) ==> encoding(*frame) == Ok::<Seq<u8>, EncodeError>(octets@),
        r matches Err(e) ==> encoding(*frame) == Err::<Seq<u8>, EncodeError>(e),
        header_of(*frame).in_sequence_space() && !(header_of(*frame) is I) ==> r is Ok
            && r.unwrap()@ == short_image(header_of(*frame)),
{
    if !inspect(frame).within_sequence_space() {
        return Err(EncodeError::OutOfSequenceSpace);
    }
    match write_telegram(frame) {
        Some(octets) => Ok(octets),
        None => Err(EncodeError::Refused),
    }
}

/// The client side of one session.
pub struct Client {
    tracker: SequenceTracker,
    slot: Correlator,
}

impl View for Client {
    type V = Session;

    closed spec fn view(&self) -> Session {
        Session { numbering: self.tracker@, slot: self.slot@ }
    }
}

impl Client {
    /// A client on which nothing has passed yet, and the reader that goes
    /// with it.
    pub fn new() -> (pair: (Client, Reader))
        ensures
            pair.0@ == Session::initial(),
            !pair.1@.started,
            !pair.1@.reading,
    {
        (Client { tracker: SequenceTracker::new(), slot: Correlator::new() }, Reader::new())
    }

    /// The sequence counters as they stand.
    pub fn numbering(&self) -> (n: Numbering)
        ensures
            n == self@.numbering,
            n.valid(),
    {
        self.tracker.numbering()
    }

    /// Tells whether a command is outstanding.
    pub fn is_armed(&self) -> (armed: bool)
        ensures
            armed == self@.slot.armed(),
    {
        self.slot.is_armed()
    }

    /// Ends the activation exchange on a connection that was just
    /// established: judges the peer's reply to the request of
    /// [`crate::handshake::request`]. A reply that opens the session returns
    /// both counters to zero, so that the numbering starts over before any
    /// data frame passes; any other reply fails the connect attempt and
    /// leaves the counters as they stand.
    pub fn finish_handshake(&mut self, reply: &Telegram104) -> (r: Result<(), HandshakeError>)
        ensures
            r == verdict(header_of(*reply)),
            final(self)@ == old(self)@.after_handshake(header_of(*reply)),
    {
        let r = check_reply(reply);
        if r.is_ok() {
            self.tracker.reset();
        }
        r
    }

    /// Tells whether the transport session must be held while `frame` is
    /// written: it must for an information frame and for an
    /// acknowledgement, so that no reconnect and no other numbered frame
    /// comes in between; a control frame needs no such hold.
    pub fn needs_session_lock(frame: &Telegram104) -> (needed: bool)
        ensures
            needed == header_of(*frame).is_numbered(),
    {
        inspect(frame).numbered()
    }

    /// The first step of the send path: numbers `frame` from the counters as
    /// they stand and serialises it. No number is spent here, whether the
    /// codec accepts the telegram or refuses it: the caller writes the
    /// octets and then reports with [`Client::written`], which spends the
    /// number. A telegram that is refused, or that cannot be written, so
    /// leaves no gap in the numbers of those that are sent.
    pub fn send(&mut self, frame: Telegram104) -> (r: Result<Outgoing, EncodeError>)
        ensures
            final(self)@ == old(self)@,
            r is Ok <==> wire_image(outgoing(old(self)@.numbering, frame)) is Some,
            r matches Ok(out) ==> wire_image(outgoing(old(self)@.numbering, frame)) == Some(
                out.octets@,
            ) && out.header == old(self)@.numbering.stamp(header_of(frame)),
            r matches Err(e) ==> e == EncodeError::Refused,
            header_of(outgoing(old(self)@.numbering, frame)) == old(self)@.numbering.stamp(
                header_of(frame),
            ),
            !(header_of(frame) is I) ==> r is Ok && r.unwrap().octets@ == short_image(
                old(self)@.numbering.stamp(header_of(frame)),
            ),
    {
        let numbered = self.tracker.number(frame);
        let header = inspect(&numbered);
        match encode(&numbered) {
            Ok(octets) => Ok(Outgoing { octets, header }),
            Err(e) => Err(e),
        }
    }

    /// The last step of the send path: records that the telegram which
    /// [`Client::send`] or [`Client::command`] gave out with this header has
    /// been written. An information frame spends its send number now; an
    /// acknowledgement or a control frame spends nothing.
    pub fn written(&mut self, header: FrameHeader)
        ensures
            final(self)@.numbering == old(self)@.numbering.sent(header),
            final(self)@.slot == old(self)@.slot,
    {
        self.tracker.confirm(header);
    }

    /// Issues a command: arms the slot for it, then numbers and serialises
    /// `frame` as [`Client::send`] does, and like it spends no number. If
    /// the telegram cannot be serialised the slot is closed again. Whatever
    /// command was outstanding before is retired by the arming. Once the
    /// octets are written the caller reports with [`Client::written`]; if
    /// they cannot be written, with [`Client::abort`].
    pub fn command(&mut self, frame: Telegram104) -> (r: Result<Issued, EncodeError>)
        ensures
            final(self)@.numbering == old(self)@.numbering,
            r is Ok <==> wire_image(outgoing(old(self)@.numbering, frame)) is Some,
            r matches Ok(issued) ==> issued.ticket == old(self)@.slot.arm().ticket
                && wire_image(outgoing(old(self)@.numbering, frame)) == Some(
                issued.outgoing.octets@,
            ) && issued.outgoing.header == old(self)@.numbering.stamp(header_of(frame))
                && final(self)@.slot == old(self)@.slot.arm(),
            r matches Err(e) ==> e == EncodeError::Refused && final(self)@.slot == old(
                self,
            )@.slot.arm().close(old(self)@.slot.arm().ticket),
            header_of(outgoing(old(self)@.numbering, frame)) == old(self)@.numbering.stamp(
                header_of(frame),
            ),
            !(header_of(frame) is I) ==> r is Ok && r.unwrap().outgoing.octets@ == short_image(
                old(self)@.numbering.stamp(header_of(frame)),
            ),
    {
        let ticket = self.slot.arm();
        match self.send(frame) {
            Ok(outgoing) => Ok(Issued { ticket, outgoing }),
            Err(e) => {
                self.slot.close(ticket);
                Err(e)
            },
        }
    }

    /// Gives up the command with this ticket because its telegram could not
    /// be written: the slot is closed, and no number is spent.
    pub fn abort(&mut self, ticket: u64)
        ensures
            final(self)@.numbering == old(self)@.numbering,
            final(self)@.slot == old(self)@.slot.close(ticket),
    {
        self.slot.close(ticket);
    }

    /// Looks for the response to the command with this ticket.
    pub fn collect(&mut self, ticket: u64) -> (found: Poll)
        ensures
            found == old(self)@.slot.poll(ticket),
            final(self)@.numbering == old(self)@.numbering,
            final(self)@.slot == old(self)@.slot.collect(ticket),
    {
        self.slot.collect(ticket)
    }

    /// Ends the wait of the command with this ticket because its time is
    /// up.
    pub fn expire(&mut self, ticket: u64) -> (outcome: Result<Telegram104, CommandError>)
        ensures
            outcome == old(self)@.slot.outcome(ticket),
            final(self)@.numbering == old(self)@.numbering,
            final(self)@.slot == old(self)@.slot.expire(ticket),
    {
        self.slot.expire(ticket)
    }

    /// Holds an incoming telegram against the sequence counters, on behalf
    /// of the reader.
    pub fn validate_incoming(&mut self, frame: &Telegram104) -> (r: Result<(), SequenceError>)
        ensures
            r is Ok <==> old(self)@.numbering.accepts(header_of(*frame)),
            r matches Err(e) ==> e == old(self)@.numbering.refusal(header_of(*frame)),
            final(self)@.numbering == old(self)@.numbering.received(header_of(*frame)),
            final(self)@.slot == old(self)@.slot,
    {
        self.tracker.validate_incoming(frame)
    }

    /// Offers a response to the rendezvous slot, on behalf of the reader.
    pub fn offer_response(&mut self, response: Telegram104) -> (back: Option<Telegram104>)
        ensures
            final(self)@.numbering == old(self)@.numbering,
            final(self)@.slot == old(self)@.slot.offer(response),
            back == if old(self)@.slot.armed() {
                None
            } else {
                Some(response)
            },
    {
        self.slot.offer(response)
    }

    /// Creates a pinger worker object.
    pub fn pinger(&self, kind: PingKind, interval: Duration) -> (pinger: Pinger)
        ensures
            pinger.kind() == kind,
            pinger.interval() == interval,
    {
        Pinger::new(kind, interval)
    }
}

/// After a connect whose activation exchange succeeded the numbering starts
/// over: an incoming information frame is in sequence exactly if its send
/// number is 0, and the first information frame that is sent, whatever
/// else was sent or received before it, leaves with send number 0.
pub proof fn lemma_handshake_starts_numbering_over(
    session: Session,
    reply: FrameHeader,
    run: Seq<Exchange>,
    cot: u8,
    send_sn: u16,
    recv_sn: u16,
)
    requires
        verdict(reply) is Ok,
        sent_information(run) == 0,
    ensures
        session.after_handshake(reply).numbering == Numbering::initial(),
        session.after_handshake(reply).numbering.accepts(FrameHeader::I { cot, send_sn, recv_sn })
            <==> send_sn == 0,
        session.after_handshake(reply).numbering.after(run).stamp(
            FrameHeader::I { cot, send_sn, recv_sn },
        )->send_sn == 0,
        session.after_handshake(reply).slot == session.slot,
{
    lemma_counters_count(run);
}

} // verus!
