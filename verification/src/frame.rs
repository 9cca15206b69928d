//! The control information of a telegram, as plain values.
//!
//! The session logic never looks at the application payload of a telegram.
//! What it reads is the frame format, the two sequence numbers, the cause of
//! transmission of an information frame and the function flags of a control
//! frame. [`FrameHeader`] holds exactly that.

use vstd::prelude::*;

verus! {

/// Cause of transmission: periodic, cyclic.
pub const COT_CYCLIC: u8 = 1;

/// Cause of transmission: background scan.
pub const COT_BACKGROUND: u8 = 2;

/// Cause of transmission: spontaneous.
pub const COT_SPONTANEOUS: u8 = 3;

/// Cause of transmission: initialized.
pub const COT_INITIALIZED: u8 = 4;

/// The largest value of a send or receive sequence number (15 bits).
pub const SEQUENCE_MAX: u16 = 32767;

/// The size of the sequence space: numbers run from 0 to `SEQUENCE_MAX`.
pub const SEQUENCE_SPACE: u32 = 32768;

/// What the session reads of a telegram.
#[derive(Copy, Clone, PartialEq, Eq, Debug, Structural)]
pub enum FrameHeader {
    /// Information transfer: carries a payload, its cause of transmission
    /// code and both sequence numbers.
    I { cot: u8, send_sn: u16, recv_sn: u16 },
    /// Acknowledgement: carries the receive sequence number only.
    S { recv_sn: u16 },
    /// Link control: start or stop of data transfer, or a link test, each
    /// as a request (`con` unset) or a confirmation (`con` set).
    U { test: bool, start_dt: bool, stop_dt: bool, con: bool },
}

/// Whether `cot` is one of the causes with which the peer sends data on its
/// own account, rather than in answer to a command.
pub open spec fn is_push_cause(cot: u8) -> bool {
    cot == COT_CYCLIC || cot == COT_BACKGROUND || cot == COT_SPONTANEOUS || cot == COT_INITIALIZED
}

/// The number that follows `sn` in the sequence space.
pub open spec fn next_sn(sn: u16) -> u16 {
    if sn >= SEQUENCE_MAX {
        0
    } else {
        (sn + 1) as u16
    }
}

impl FrameHeader {
    /// The header of a start-of-data-transfer request.
    pub open spec fn start_dt_request() -> FrameHeader {
        FrameHeader::U { test: false, start_dt: true, stop_dt: false, con: false }
    }

    /// The header of a link test request.
    pub open spec fn test_request() -> FrameHeader {
        FrameHeader::U { test: true, start_dt: false, stop_dt: false, con: false }
    }

    /// The header of an acknowledgement that nothing has stamped yet.
    pub open spec fn blank_ack() -> FrameHeader {
        FrameHeader::S { recv_sn: 0 }
    }

    /// An information frame that answers a command: its cause is none of
    /// the push causes.
    pub open spec fn is_response_candidate(self) -> bool {
        self matches FrameHeader::I { cot, .. } && !is_push_cause(cot)
    }

    /// A frame that takes part in the numbered exchange, and so may only be
    /// written while the transport session is held: an information frame or
    /// an acknowledgement.
    pub open spec fn is_numbered(self) -> bool {
        self is I || self is S
    }

    /// A confirmation of the start of data transfer.
    pub open spec fn is_start_dt_confirmation(self) -> bool {
        self matches FrameHeader::U { start_dt, con, .. } && start_dt && con
    }

    /// No sequence number of the header lies outside the sequence space.
    pub open spec fn in_sequence_space(self) -> bool {
        match self {
            FrameHeader::I { send_sn, recv_sn, .. } => send_sn <= SEQUENCE_MAX && recv_sn
                <= SEQUENCE_MAX,
            FrameHeader::S { recv_sn } => recv_sn <= SEQUENCE_MAX,
            FrameHeader::U { .. } => true,
        }
    }

    /// Tells an information frame that answers a command from every other
    /// frame.
    pub fn response_candidate(&self) -> (r: bool)
        ensures
            r == self.is_response_candidate(),
    {
        match self {
            FrameHeader::I { cot, .. } => !push_cause(*cot),
            _ => false,
        }
    }

    /// Tells whether the frame is an information frame or an
    /// acknowledgement.
    pub fn numbered(&self) -> (r: bool)
        ensures
            r == self.is_numbered(),
    {
        match self {
            FrameHeader::I { .. } => true,
            FrameHeader::S { .. } => true,
            FrameHeader::U { .. } => false,
        }
    }

    /// Tells whether the frame confirms the start of data transfer.
    pub fn start_dt_confirmation(&self) -> (r: bool)
        ensures
            r == self.is_start_dt_confirmation(),
    {
        match self {
            FrameHeader::U { start_dt, con, .. } => *start_dt && *con,
            _ => false,
        }
    }

    /// Tells whether every sequence number of the header lies in the
    /// sequence space.
    pub fn within_sequence_space(&self) -> (r: bool)
        ensures
            r == self.in_sequence_space(),
    {
        match self {
            FrameHeader::I { send_sn, recv_sn, .. } => *send_sn <= SEQUENCE_MAX && *recv_sn
                <= SEQUENCE_MAX,
            FrameHeader::S { recv_sn } => *recv_sn <= SEQUENCE_MAX,
            FrameHeader::U { .. } => true,
        }
    }
}

/// Tells whether `cot` is a push cause.
pub fn push_cause(cot: u8) -> (r: bool)
    ensures
        r == is_push_cause(cot),
{
    cot == COT_CYCLIC || cot == COT_BACKGROUND || cot == COT_SPONTANEOUS || cot == COT_INITIALIZED
}

} // verus!
