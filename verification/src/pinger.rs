//! Periodic workers that keep a session alive.

use crate::codec::header_of;
use crate::codec::new_ack;
use crate::frame::FrameHeader;
use core::time::Duration;
use iec60870_5::telegram104::Telegram104;
use vstd::prelude::*;

verus! {

/// Ping kind.
#[derive(Copy, Clone, PartialEq, Eq, Debug, Structural)]
pub enum PingKind {
    /// Re-connect the socket if it was dropped.
    Connect,
    /// Send a test frame (a control frame).
    Test,
    /// Send an acknowledgement frame.
    Ack,
}

/// What one tick of a pinger asks for.
#[derive(Debug)]
pub enum PingAction {
    /// Ask the transport to connect; it does nothing if it is connected.
    Connect,
    /// Hand the telegram to the send path.
    Send(Telegram104),
}

impl PingKind {
    /// The name of the kind.
    pub open spec fn label(self) -> Seq<char> {
        match self {
            PingKind::Connect => "socket connect"@,
            PingKind::Test => "IEC 60870-5 104 test U-frame"@,
            PingKind::Ack => "IEC 60870-5 104 ack S-frame"@,
        }
    }

    /// Renders the name of the kind.
    pub fn to_string(&self) -> (s: String)
        ensures
            s@ == self.label(),
    {
        match self {
            PingKind::Connect => "socket connect".to_owned(),
            PingKind::Test => "IEC 60870-5 104 test U-frame".to_owned(),
            PingKind::Ack => "IEC 60870-5 104 ack S-frame".to_owned(),
        }
    }

    /// What a tick of this kind asks for: the header of the telegram to
    /// send, or `None` where the tick connects the transport.
    pub open spec fn probe(self) -> Option<FrameHeader> {
        match self {
            PingKind::Connect => None,
            PingKind::Test => Some(FrameHeader::test_request()),
            PingKind::Ack => Some(FrameHeader::blank_ack()),
        }
    }
}

impl Default for PingKind {
    fn default() -> (kind: PingKind)
        ensures
            kind == PingKind::Test,
    {
        PingKind::Test
    }
}

/// Pinger worker: one kind of ping, repeated at a fixed interval.
#[derive(Copy, Clone)]
pub struct Pinger {
    kind: PingKind,
    interval: Duration,
}

impl Pinger {
    /// The kind of ping.
    pub closed spec fn spec_kind(&self) -> PingKind {
        self.kind
    }

    /// The interval between two ticks.
    pub closed spec fn spec_interval(&self) -> Duration {
        self.interval
    }

    /// A worker that pings in the given way at the given interval.
    pub fn new(kind: PingKind, interval: Duration) -> (pinger: Pinger)
        ensures
            pinger.spec_kind() == kind,
            pinger.spec_interval() == interval,
    {
        Pinger { kind, interval }
    }

    /// The kind of ping.
    #[verifier::when_used_as_spec(spec_kind)]
    pub fn kind(&self) -> (kind: PingKind)
        ensures
            kind == self.spec_kind(),
    {
        self.kind
    }

    /// The interval between two ticks.
    #[verifier::when_used_as_spec(spec_interval)]
    pub fn interval(&self) -> (interval: Duration)
        ensures
            interval == self.spec_interval(),
    {
        self.interval
    }

    /// The work of one tick. Every tick asks for the same; whether the last
    /// one failed does not matter.
    pub fn tick(&self) -> (action: PingAction)
        ensures
            action is Connect <==> self.kind().probe() is None,
            action matches PingAction::Send(frame) ==> self.kind().probe() == Some(
                header_of(frame),
            ),
    {
        match self.kind {
            PingKind::Connect => PingAction::Connect,
            PingKind::Test => PingAction::Send(Telegram104::new_test()),
            PingKind::Ack => PingAction::Send(new_ack()),
        }
    }
}

} // verus!
