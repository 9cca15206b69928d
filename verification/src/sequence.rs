//! Sequence numbering of a session.
//!
//! Every information frame carries a send number and a receive number. The
//! [`SequenceTracker`] holds the two counters of a session, numbers what
//! goes out and checks what comes in. A send number is spent when the frame
//! is confirmed as sent, not when it is numbered, so that a frame which
//! fails on the way leaves no gap. [`Numbering`] is the mathematical model
//! of the tracker, and the laws at the end of this module are stated over
//! that model.

use crate::codec::counter_rx;
use crate::codec::counter_tx;
use crate::codec::header_of;
use crate::codec::inspect;
use crate::codec::set_numbers;
use crate::codec::stamped;
use crate::codec::with_numbers;
use crate::codec::with_sequence;
use crate::frame::next_sn;
use crate::frame::FrameHeader;
use crate::frame::SEQUENCE_MAX;
use crate::frame::SEQUENCE_SPACE;
use iec60870_5::telegram104::ChatSequenceCounter;
use iec60870_5::telegram104::Telegram104;
use vstd::prelude::*;

verus! {

/// The two counters of a session: `tx` numbers the next information frame
/// sent, `rx` is the number expected on the next information frame received.
#[derive(Copy, Clone, PartialEq, Eq, Debug, Structural)]
pub struct Numbering {
    pub tx: u16,
    pub rx: u16,
}

/// One step of the numbered exchange, seen from this side.
pub enum Exchange {
    /// A telegram with this header was numbered, left, and was confirmed as
    /// sent.
    Sent(FrameHeader),
    /// A telegram with this header arrived.
    Received(FrameHeader),
}

/// An incoming information frame whose send number is not the one expected.
#[derive(Copy, Clone, PartialEq, Eq, Debug, Structural)]
pub struct SequenceError {
    /// The send number the frame carried.
    pub received: u16,
    /// The number the session expected.
    pub expected: u16,
}

impl Numbering {
    /// The counters of a session on which no data frame has passed yet.
    pub open spec fn initial() -> Numbering {
        Numbering { tx: 0, rx: 0 }
    }

    /// Both counters lie in the sequence space.
    pub open spec fn valid(self) -> bool {
        self.tx <= SEQUENCE_MAX && self.rx <= SEQUENCE_MAX
    }

    /// The header an outgoing telegram leaves with.
    pub open spec fn stamp(self, h: FrameHeader) -> FrameHeader {
        stamped(h, self.tx, self.rx)
    }

    /// The counters after an outgoing telegram has left: only an
    /// information frame spends a number.
    pub open spec fn sent(self, h: FrameHeader) -> Numbering {
        if h is I {
            Numbering { tx: next_sn(self.tx), rx: self.rx }
        } else {
            self
        }
    }

    /// Whether an incoming telegram is in sequence. Only information frames
    /// are held against the counters.
    pub open spec fn accepts(self, h: FrameHeader) -> bool {
        h matches FrameHeader::I { send_sn, .. } ==> send_sn == self.rx
    }

    /// The counters after an incoming telegram was checked: an information
    /// frame that is in sequence advances the receive counter.
    pub open spec fn received(self, h: FrameHeader) -> Numbering {
        if h is I && self.accepts(h) {
            Numbering { tx: self.tx, rx: next_sn(self.rx) }
        } else {
            self
        }
    }

    /// The error an incoming telegram is refused with.
    pub open spec fn refusal(self, h: FrameHeader) -> SequenceError {
        SequenceError { received: h->send_sn, expected: self.rx }
    }

    /// The counters after one step of the exchange.
    pub open spec fn step(self, e: Exchange) -> Numbering {
        match e {
            Exchange::Sent(h) => self.sent(h),
            Exchange::Received(h) => self.received(h),
        }
    }

    /// The counters after a run of steps.
    pub open spec fn after(self, run: Seq<Exchange>) -> Numbering
        decreases run.len(),
    {
        if run.len() == 0 {
            self
        } else {
            self.after(run.drop_last()).step(run.last())
        }
    }
}

/// The telegram that leaves when `frame` is numbered while the counters
/// stand at `n`.
pub open spec fn outgoing(n: Numbering, frame: Telegram104) -> Telegram104 {
    if header_of(frame) is I {
        with_numbers(frame, n.tx, n.rx)
    } else {
        with_sequence(frame, n.tx, n.rx)
    }
}

/// How many information frames a run sends.
pub open spec fn sent_information(run: Seq<Exchange>) -> nat
    decreases run.len(),
{
    if run.len() == 0 {
        0
    } else {
        let rest = sent_information(run.drop_last());
        if run.last() matches Exchange::Sent(h) && h is I {
            rest + 1
        } else {
            rest
        }
    }
}

/// How many information frames a run receives in sequence, when it starts
/// from the counters `from`.
pub open spec fn accepted_information(from: Numbering, run: Seq<Exchange>) -> nat
    decreases run.len(),
{
    if run.len() == 0 {
        0
    } else {
        let rest = accepted_information(from, run.drop_last());
        if run.last() matches Exchange::Received(h) && h is I && from.after(
            run.drop_last(),
        ).accepts(h) {
            rest + 1
        } else {
            rest
        }
    }
}

/// The sequence counters of one session.
pub struct SequenceTracker {
    counter: ChatSequenceCounter,
}

impl View for SequenceTracker {
    type V = Numbering;

    closed spec fn view(&self) -> Numbering {
        Numbering { tx: counter_tx(self.counter), rx: counter_rx(self.counter) }
    }
}

impl SequenceTracker {
    /// A tracker for a session on which nothing has passed yet.
    pub fn new() -> (tracker: SequenceTracker)
        ensures
            tracker@ == Numbering::initial(),
    {
        SequenceTracker { counter: ChatSequenceCounter::new() }
    }

    /// Returns both counters to zero, as a new connection requires.
    pub fn reset(&mut self)
        ensures
            final(self)@ == Numbering::initial(),
    {
        self.counter.reset();
    }

    /// The counters as they stand.
    pub fn numbering(&self) -> (n: Numbering)
        ensures
            n == self@,
            n.valid(),
    {
        Numbering { tx: self.counter.current_tx(), rx: self.counter.current_rx() }
    }

    /// Numbers an outgoing telegram from the counters as they stand, and
    /// leaves the counters where they are: an information frame takes the
    /// send counter and the receive counter, an acknowledgement the receive
    /// counter, a control frame nothing. The send number is spent only by
    /// [`SequenceTracker::confirm`], once the telegram has left.
    pub fn number(&mut self, frame: Telegram104) -> (numbered: Telegram104)
        ensures
            numbered == outgoing(old(self)@, frame),
            header_of(numbered) == old(self)@.stamp(header_of(frame)),
            header_of(numbered).in_sequence_space(),
            final(self)@ == old(self)@,
    {
        let n = self.numbering();
        match inspect(&frame) {
            FrameHeader::I { .. } => set_numbers(frame, n.tx, n.rx),
            _ => {
                let mut frame = frame;
                frame.chat_sequence_apply_outgoing(&mut self.counter);
                frame
            },
        }
    }

    /// Records that a telegram which left with header `h` has been sent: an
    /// information frame spends its send number, so the send counter moves
    /// one step; any other telegram spends nothing.
    pub fn confirm(&mut self, h: FrameHeader)
        ensures
            final(self)@ == old(self)@.sent(h),
    {
        match h {
            FrameHeader::I { .. } => {
                // reading the counters shows that they lie in the sequence space
                let _ = self.numbering();
                let _ = self.counter.increment_tx();
            },
            _ => {},
        }
    }

    /// Holds an incoming telegram against the receive counter. An
    /// information frame must carry the expected number as its send number;
    /// if it does, the receive counter advances, and if it does not, the
    /// counters stay and the error names both numbers. Any other telegram
    /// passes.
    pub fn validate_incoming(&mut self, frame: &Telegram104) -> (r: Result<(), SequenceError>)
        ensures
            r is Ok <==> old(self)@.accepts(header_of(*frame)),
            r matches Err(e) ==> e == old(self)@.refusal(header_of(*frame)),
            final(self)@ == old(self)@.received(header_of(*frame)),
    {
        match inspect(frame) {
            FrameHeader::I { send_sn, .. } => {
                let expected = self.counter.current_rx();
                match frame.chat_sequence_validate_incoming(&mut self.counter) {
                    Ok(()) => Ok(()),
                    Err(_) => Err(SequenceError { received: send_sn, expected }),
                }
            },
            _ => Ok(()),
        }
    }
}

/// A telegram spends the number it left with: an information frame that
/// was numbered while the counters stood at `n` carries the send counter of
/// `n`, and confirming it with the header it left with moves the counters as
/// one step of the exchange does. A telegram that is numbered and not
/// confirmed moves nothing.
pub proof fn lemma_confirmed_frame_spends_its_number(n: Numbering, h: FrameHeader)
    ensures
        h matches FrameHeader::I { cot, .. } ==> n.stamp(h) == (FrameHeader::I {
            cot,
            send_sn: n.tx,
            recv_sn: n.rx,
        }),
        n.sent(n.stamp(h)) == n.sent(h),
        n.sent(h) == n.step(Exchange::Sent(h)),
{
}

/// Stepping a counter `n` times from zero gives `n` modulo the size of the
/// sequence space.
proof fn lemma_next_sn_counts(n: nat)
    ensures
        next_sn((n % (SEQUENCE_SPACE as nat)) as u16) == (n + 1) % (SEQUENCE_SPACE as nat),
{
}

/// A run of steps keeps the counters in the sequence space, leaves the send
/// counter at the number of information frames sent, and the receive counter
/// at the number of information frames received in sequence, both modulo the
/// size of the sequence space.
pub proof fn lemma_counters_count(run: Seq<Exchange>)
    ensures
        Numbering::initial().after(run).valid(),
        Numbering::initial().after(run).tx == sent_information(run) % (SEQUENCE_SPACE as nat),
        Numbering::initial().after(run).rx == accepted_information(Numbering::initial(), run) % (
        SEQUENCE_SPACE as nat),
    decreases run.len(),
{
    if run.len() > 0 {
        lemma_counters_count(run.drop_last());
        lemma_next_sn_counts(sent_information(run.drop_last()));
        lemma_next_sn_counts(accepted_information(Numbering::initial(), run.drop_last()));
    }
}

/// Within one session the information frames sent are numbered 0, 1, 2 and
/// so on without gap or repeat, wrapping at the size of the sequence space:
/// whatever else is sent or received in between, the information frame sent
/// at step `at` leaves with the number of information frames sent before it.
/// The run holds the telegrams that left. One that the codec refused, or
/// that could not be written, is no step of it: it has spent no number.
pub proof fn lemma_send_numbers_consecutive(run: Seq<Exchange>, at: int)
    requires
        0 <= at < run.len(),
        run[at] matches Exchange::Sent(h) && h is I,
    ensures
        Numbering::initial().after(run.take(at)).stamp(run[at]->Sent_0)->send_sn
            == sent_information(run.take(at)) % (SEQUENCE_SPACE as nat),
{
    lemma_counters_count(run.take(at));
}

} // verus!
