//! The telegram codec and its sequence counter.
//!
//! Telegrams are built, numbered, inspected and serialised by the
//! `iec60870_5` crate. This module declares the types of that crate which
//! the session handles, gives names to what its functions compute, and
//! states, function by function, what the session relies on. Nothing in this
//! module is proved: every contract below describes code of that crate.

use crate::frame::next_sn;
use crate::frame::FrameHeader;
use crate::frame::SEQUENCE_MAX;
use iec60870_5::telegram104::ChatSequenceCounter;
use iec60870_5::telegram104::Telegram104;
use iec60870_5::telegram104::Telegram104_S;
use iec60870_5::Error;
use vstd::prelude::*;

verus! {

/// `iec60870_5::telegram104::Telegram104`: a telegram of any of the three
/// formats. Its contents are visible through [`header_of`] only.
#[verifier::external_type_specification]
#[verifier::external_body]
pub struct ExTelegram104(Telegram104);

/// `iec60870_5::telegram104::ChatSequenceCounter`: the pair of counters from
/// which telegrams are numbered. Its contents are [`counter_tx`] and
/// [`counter_rx`].
#[verifier::external_type_specification]
#[verifier::external_body]
pub struct ExChatSequenceCounter(ChatSequenceCounter);

/// `iec60870_5::Error`: what the codec reports when it refuses a telegram.
#[verifier::external_type_specification]
#[verifier::external_body]
pub struct ExCodecError(Error);

/// The send counter of `c`: the number the next information frame is sent
/// with.
pub uninterp spec fn counter_tx(c: ChatSequenceCounter) -> u16;

/// The receive counter of `c`: the number the next information frame is
/// expected to arrive with.
pub uninterp spec fn counter_rx(c: ChatSequenceCounter) -> u16;

/// What the getters of `t` report: its format, sequence numbers, cause code
/// and function flags.
pub uninterp spec fn header_of(t: Telegram104) -> FrameHeader;

/// The telegram that `Telegram104::chat_sequence_apply_outgoing` makes of `t`
/// when the counters stand at `tx` and `rx`.
pub uninterp spec fn with_sequence(t: Telegram104, tx: u16, rx: u16) -> Telegram104;

/// The information frame that `Telegram104_I::with_send_sn` and
/// `Telegram104_I::with_recv_sn` make of `t` when they are given `send_sn`
/// and `recv_sn`; `t` itself where it is no information frame.
pub uninterp spec fn with_numbers(t: Telegram104, send_sn: u16, recv_sn: u16) -> Telegram104;

/// The octets that `Telegram104::write` produces for `t`, or `None` where it
/// refuses `t`.
pub uninterp spec fn wire_image(t: Telegram104) -> Option<Seq<u8>>;

/// The header that numbering gives to a telegram with header `h`: an
/// information frame takes both counters, an acknowledgement the receive
/// counter, a control frame neither.
pub open spec fn stamped(h: FrameHeader, tx: u16, rx: u16) -> FrameHeader {
    match h {
        FrameHeader::I { cot, .. } => FrameHeader::I { cot, send_sn: tx, recv_sn: rx },
        FrameHeader::S { .. } => FrameHeader::S { recv_sn: rx },
        FrameHeader::U { .. } => h,
    }
}

/// The header of a telegram with header `h` after both numbers of an
/// information frame were set; any other header stays.
pub open spec fn renumbered(h: FrameHeader, send_sn: u16, recv_sn: u16) -> FrameHeader {
    match h {
        FrameHeader::I { cot, .. } => FrameHeader::I { cot, send_sn, recv_sn },
        _ => h,
    }
}

/// Whether the codec accepts an incoming telegram with header `h` while the
/// counters stand at `tx` and `rx`: an information frame must carry the
/// receive counter as its send number, an acknowledgement the send counter
/// as its receive number.
pub open spec fn sequence_accepts(h: FrameHeader, tx: u16, rx: u16) -> bool {
    match h {
        FrameHeader::I { send_sn, .. } => send_sn == rx,
        FrameHeader::S { recv_sn } => recv_sn == tx,
        FrameHeader::U { .. } => true,
    }
}

/// The control octet of a control frame: the two format bits, and for each
/// function that is set its request bit or, in a confirmation, its
/// confirmation bit.
pub open spec fn control_octet(test: bool, start_dt: bool, stop_dt: bool, con: bool) -> u8 {
    let t: int = if !test { 0 } else if con { 0x80 } else { 0x40 };
    let p: int = if !stop_dt { 0 } else if con { 0x20 } else { 0x10 };
    let s: int = if !start_dt { 0 } else if con { 0x08 } else { 0x04 };
    (0x03 + t + p + s) as u8
}

/// The octets of a control or acknowledgement frame: start octet, length,
/// and the four octets of the control field. An information frame has no
/// image here.
pub open spec fn short_image(h: FrameHeader) -> Seq<u8> {
    match h {
        FrameHeader::U { test, start_dt, stop_dt, con } => seq![
            0x68u8,
            0x04u8,
            control_octet(test, start_dt, stop_dt, con),
            0u8,
            0u8,
            0u8,
        ],
        FrameHeader::S { recv_sn } => seq![
            0x68u8,
            0x04u8,
            0x01u8,
            0u8,
            ((recv_sn % 128) * 2) as u8,
            (recv_sn / 128) as u8,
        ],
        FrameHeader::I { .. } => Seq::empty(),
    }
}

/// `ChatSequenceCounter::new`: both counters start at zero.
pub assume_specification[ ChatSequenceCounter::new ]() -> (c: ChatSequenceCounter)
    ensures
        counter_tx(c) == 0,
        counter_rx(c) == 0,
;

/// `ChatSequenceCounter::reset`: both counters return to zero.
pub assume_specification[ ChatSequenceCounter::reset ](c: &mut ChatSequenceCounter)
    ensures
        counter_tx(*final(c)) == 0,
        counter_rx(*final(c)) == 0,
;

/// `ChatSequenceCounter::current_tx`: reads the send counter. The counter
/// starts at zero and wraps to zero when a step would take it past the
/// largest sequence number, so what is read lies in the sequence space.
pub assume_specification[ ChatSequenceCounter::current_tx ](c: &ChatSequenceCounter) -> (tx: u16)
    ensures
        tx == counter_tx(*c),
        tx <= SEQUENCE_MAX,
;

/// `ChatSequenceCounter::current_rx`: reads the receive counter, which lies
/// in the sequence space for the same reason.
pub assume_specification[ ChatSequenceCounter::current_rx ](c: &ChatSequenceCounter) -> (rx: u16)
    ensures
        rx == counter_rx(*c),
        rx <= SEQUENCE_MAX,
;

/// `ChatSequenceCounter::increment_tx`: advances the send counter by one
/// step, wrapping to zero past the largest sequence number, and returns the
/// new value. The counter must lie in the sequence space, or the step could
/// overflow.
pub assume_specification[ ChatSequenceCounter::increment_tx ](c: &mut ChatSequenceCounter) -> (tx:
    u16)
    requires
        counter_tx(*old(c)) <= SEQUENCE_MAX,
    ensures
        counter_tx(*final(c)) == next_sn(counter_tx(*old(c))),
        counter_rx(*final(c)) == counter_rx(*old(c)),
        tx == counter_tx(*final(c)),
;

/// `Telegram104::chat_sequence_apply_outgoing`: numbers an outgoing telegram
/// from the counters, and advances the send counter by one step for an
/// information frame. The send counter must lie in the sequence space, or
/// the step could overflow.
pub assume_specification[ Telegram104::chat_sequence_apply_outgoing ](
    t: &mut Telegram104,
    counter: &mut ChatSequenceCounter,
)
    requires
        counter_tx(*old(counter)) <= SEQUENCE_MAX,
    ensures
        *final(t) == with_sequence(*old(t), counter_tx(*old(counter)), counter_rx(*old(counter))),
        header_of(*final(t)) == stamped(
            header_of(*old(t)),
            counter_tx(*old(counter)),
            counter_rx(*old(counter)),
        ),
        counter_tx(*final(counter)) == if header_of(*old(t)) is I {
            next_sn(counter_tx(*old(counter)))
        } else {
            counter_tx(*old(counter))
        },
        counter_rx(*final(counter)) == counter_rx(*old(counter)),
;

/// `Telegram104::chat_sequence_validate_incoming`: holds an incoming
/// telegram against the counters. It succeeds exactly on the telegrams that
/// [`sequence_accepts`] describes, and advances the receive counter by one
/// step when it accepts an information frame. The receive counter must lie
/// in the sequence space, or the step could overflow.
pub assume_specification[ Telegram104::chat_sequence_validate_incoming ](
    t: &Telegram104,
    counter: &mut ChatSequenceCounter,
) -> (r: Result<(), Error>)
    requires
        counter_rx(*old(counter)) <= SEQUENCE_MAX,
    ensures
        r is Ok <==> sequence_accepts(
            header_of(*t),
            counter_tx(*old(counter)),
            counter_rx(*old(counter)),
        ),
        counter_tx(*final(counter)) == counter_tx(*old(counter)),
        counter_rx(*final(counter)) == if r is Ok && header_of(*t) is I {
            next_sn(counter_rx(*old(counter)))
        } else {
            counter_rx(*old(counter))
        },
;

/// `Telegram104::new_start_dt`: a control frame that requests the start of
/// data transfer.
pub assume_specification[ Telegram104::new_start_dt ]() -> (t: Telegram104)
    ensures
        header_of(t) == FrameHeader::start_dt_request(),
;

/// `Telegram104::new_test`: a control frame that requests a link test.
pub assume_specification[ Telegram104::new_test ]() -> (t: Telegram104)
    ensures
        header_of(t) == FrameHeader::test_request(),
;

/// `Telegram104_S::new`, turned into a telegram: an acknowledgement whose
/// receive number is zero until it is numbered.
#[verifier::external_body]
pub(crate) fn new_ack() -> (t: Telegram104)
    ensures
        header_of(t) == FrameHeader::blank_ack(),
{
    Telegram104::S(Telegram104_S::new())
}

/// `Telegram104_I::with_send_sn` and `Telegram104_I::with_recv_sn`: sets both
/// sequence numbers of an information frame and leaves everything else of
/// it. A telegram of another format is handed back as it came.
#[verifier::external_body]
pub(crate) fn set_numbers(t: Telegram104, send_sn: u16, recv_sn: u16) -> (r: Telegram104)
    ensures
        r == with_numbers(t, send_sn, recv_sn),
        header_of(r) == renumbered(header_of(t), send_sn, recv_sn),
{
    match t {
        Telegram104::I(i) => Telegram104::I(i.with_send_sn(send_sn).with_recv_sn(recv_sn)),
        Telegram104::S(s) => Telegram104::S(s),
        Telegram104::U(u) => Telegram104::U(u),
    }
}

/// The getters of the three telegram formats (`send_sn`, `recv_sn`, `cot`,
/// `is_test`, `is_start_dt`, `is_stop_dt`, `is_con`): reads the header of
/// `t`. The cause of transmission is given by its code.
#[verifier::external_body]
pub(crate) fn inspect(t: &Telegram104) -> (h: FrameHeader)
    ensures
        h == header_of(*t),
{
    match t {
        Telegram104::I(i) => FrameHeader::I {
            cot: i.cot() as u8,
            send_sn: i.send_sn(),
            recv_sn: i.recv_sn(),
        },
        Telegram104::S(s) => FrameHeader::S { recv_sn: s.recv_sn() },
        Telegram104::U(u) => FrameHeader::U {
            test: u.is_test(),
            start_dt: u.is_start_dt(),
            stop_dt: u.is_stop_dt(),
            con: u.is_con(),
        },
    }
}

/// `Telegram104::write` into an empty buffer: serialises `t`. The result is
/// [`wire_image`]; for a control frame and an acknowledgement it is the six
/// octets of [`short_image`], and the codec never refuses one. The sequence
/// numbers must lie in the sequence space: the codec panics on the first
/// number past it.
#[verifier::external_body]
pub(crate) fn write_telegram(t: &Telegram104) -> (r: Option<Vec<u8>>)
    requires
        header_of(*t).in_sequence_space(),
    ensures
        r is Some <==> wire_image(*t) is Some,
        r matches Some(octets) ==> wire_image(*t) == Some(octets@),
        !(header_of(*t) is I) ==> r is Some && r.unwrap()@ == short_image(header_of(*t)),
{
    let mut octets = Vec::new();
    match t.write(&mut octets) {
        Ok(()) => Some(octets),
        Err(_) => None,
    }
}

} // verus!
