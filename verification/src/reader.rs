//! The reader side of a session.
//!
//! The reader consumes one transport session at a time. On every start it
//! announces a restart; every telegram it reads is checked against the
//! sequence counters and then either given to the command that waits for it
//! or forwarded to the telegram queue; when it stops it asks the transport
//! to reconnect, unless the transport has moved on to a new session already.
//! [`Reader`] makes these decisions; reading from the stream and writing to
//! the queues is left to the caller.

use crate::client::Client;
use crate::client::Session;
use crate::codec::header_of;
use crate::codec::inspect;
use crate::correlator::Poll;
use crate::frame::is_push_cause;
use crate::frame::FrameHeader;
use crate::restart::RestartEvent;
use crate::sequence::SequenceError;
use iec60870_5::telegram104::Telegram104;
use vstd::prelude::*;

verus! {

/// Where an incoming telegram goes.
#[derive(Copy, Clone, PartialEq, Eq, Debug, Structural)]
pub enum Route {
    /// To the command that waits for a response.
    Command,
    /// To the telegram queue.
    Queue,
}

/// What became of an incoming telegram.
#[derive(Debug)]
pub enum Delivery {
    /// It is out of sequence. The session ends here.
    Rejected(SequenceError),
    /// It went to the command that waited for it.
    Answered,
    /// It is handed back, to be put into the telegram queue.
    Forward(Telegram104),
}

/// What the reader asks for when it starts on a session.
#[derive(Debug)]
pub struct ReaderStart {
    /// The event to publish.
    pub event: RestartEvent,
    /// Whether this start follows an earlier one, which is worth a warning.
    pub restarted: bool,
}

/// The reader loop as a mathematical value.
pub struct ReaderState {
    /// The reader has started at least once.
    pub started: bool,
    /// The reader is on a session and goes on reading.
    pub reading: bool,
    /// The identity of the transport session the reader started on.
    pub session_id: usize,
}

/// Where a telegram with header `h` goes: an information frame whose cause
/// is no push cause goes to the waiting command if there is one; everything
/// else goes to the queue.
pub open spec fn route(h: FrameHeader, armed: bool) -> Route {
    if h.is_response_candidate() && armed {
        Route::Command
    } else {
        Route::Queue
    }
}

/// What becomes of a telegram that arrives while client and reader share
/// `session`.
pub open spec fn delivery(session: Session, telegram: Telegram104) -> Delivery {
    let h = header_of(telegram);
    if !session.numbering.accepts(h) {
        Delivery::Rejected(session.numbering.refusal(h))
    } else if route(h, session.slot.armed()) == Route::Command {
        Delivery::Answered
    } else {
        Delivery::Forward(telegram)
    }
}

/// What client and reader share after a telegram arrived.
pub open spec fn delivered(session: Session, telegram: Telegram104) -> Session {
    let h = header_of(telegram);
    if !session.numbering.accepts(h) {
        session
    } else if route(h, session.slot.armed()) == Route::Command {
        Session { numbering: session.numbering.received(h), slot: session.slot.offer(telegram) }
    } else {
        Session { numbering: session.numbering.received(h), slot: session.slot }
    }
}

/// Decides where a telegram with header `h` goes.
pub fn route_header(h: FrameHeader, armed: bool) -> (r: Route)
    ensures
        r == route(h, armed),
{
    if armed && h.response_candidate() {
        Route::Command
    } else {
        Route::Queue
    }
}

/// The reader side of one session.
pub struct Reader {
    started: bool,
    reading: bool,
    session_id: usize,
}

impl View for Reader {
    type V = ReaderState;

    closed spec fn view(&self) -> ReaderState {
        ReaderState { started: self.started, reading: self.reading, session_id: self.session_id }
    }
}

impl Reader {
    /// A reader that has not started yet.
    pub fn new() -> (reader: Reader)
        ensures
            !reader@.started,
            !reader@.reading,
    {
        Reader { started: false, reading: false, session_id: 0 }
    }

    /// Tells whether the reader goes on reading the stream it started on.
    pub fn reading(&self) -> (reading: bool)
        ensures
            reading == self@.reading,
    {
        self.reading
    }

    /// Starts on a stream that the transport handed over. `session_id` is
    /// the identity of the transport session at this moment. Every start
    /// publishes a restart event; every start but the first is a restart.
    pub fn start(&mut self, session_id: usize) -> (start: ReaderStart)
        ensures
            start.restarted == old(self)@.started,
            final(self)@ == (ReaderState { started: true, reading: true, session_id }),
    {
        let restarted = self.started;
        self.started = true;
        self.reading = true;
        self.session_id = session_id;
        ReaderStart { event: RestartEvent {  }, restarted }
    }

    /// Takes one telegram that was read from the stream. The telegram is
    /// held against the sequence counters first; one that is out of
    /// sequence ends the reading. An information frame whose cause is no
    /// push cause is kept for the command that waits, if one does, and is
    /// not forwarded. Every other telegram is handed back for the queue.
    pub fn receive(&mut self, client: &mut Client, telegram: Telegram104) -> (d: Delivery)
        ensures
            d == delivery(old(client)@, telegram),
            final(client)@ == delivered(old(client)@, telegram),
            final(self)@.reading == (old(self)@.reading && !(d is Rejected)),
            final(self)@.started == old(self)@.started,
            final(self)@.session_id == old(self)@.session_id,
    {
        match client.validate_incoming(&telegram) {
            Err(e) => {
                self.reading = false;
                Delivery::Rejected(e)
            },
            Ok(()) => {
                let armed = client.is_armed();
                match route_header(inspect(&telegram), armed) {
                    Route::Command => {
                        let _ = client.offer_response(telegram);
                        Delivery::Answered
                    },
                    Route::Queue => Delivery::Forward(telegram),
                }
            },
        }
    }

    /// Ends the reading because the stream failed or the telegram queue
    /// took no more.
    pub fn fail(&mut self)
        ensures
            final(self)@ == (ReaderState { reading: false, ..old(self)@ }),
    {
        self.reading = false;
    }

    /// Leaves the session. `current_session` is the identity of the
    /// transport session at this moment: if it is still the one the reader
    /// started on, nobody has reconnected yet and the reader asks for it.
    pub fn finish(&mut self, current_session: usize) -> (reconnect: bool)
        ensures
            reconnect == (current_session == old(self)@.session_id),
            final(self)@ == (ReaderState { reading: false, ..old(self)@ }),
    {
        self.reading = false;
        current_session == self.session_id
    }
}

/// An information frame that arrives in sequence with a push cause is
/// always forwarded to the queue and never reaches the command slot, even
/// while a command is outstanding.
pub proof fn lemma_push_goes_to_queue(session: Session, telegram: Telegram104)
    requires
        header_of(telegram) matches FrameHeader::I { cot, .. } && is_push_cause(cot),
        session.numbering.accepts(header_of(telegram)),
    ensures
        delivery(session, telegram) == Delivery::Forward(telegram),
        delivered(session, telegram).slot == session.slot,
{
}

/// An information frame that arrives in sequence with any other cause while
/// a command is outstanding goes to that command and is not forwarded: the
/// command finds exactly this telegram.
pub proof fn lemma_response_goes_to_command(session: Session, telegram: Telegram104)
    requires
        header_of(telegram) matches FrameHeader::I { cot, .. } && !is_push_cause(cot),
        session.numbering.accepts(header_of(telegram)),
        session.slot.armed(),
    ensures
        delivery(session, telegram) is Answered,
        delivered(session, telegram).slot.poll(session.slot.ticket) == Poll::Ready(telegram),
{
}

/// Acknowledgements and control frames are never taken for a response, and
/// neither is anything while no command is outstanding.
pub proof fn lemma_rest_goes_to_queue(session: Session, telegram: Telegram104)
    requires
        !(header_of(telegram) is I) || !session.slot.armed(),
        session.numbering.accepts(header_of(telegram)),
    ensures
        delivery(session, telegram) == Delivery::Forward(telegram),
        delivered(session, telegram).slot == session.slot,
{
}

} // verus!
