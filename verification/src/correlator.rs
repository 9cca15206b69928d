//! The rendezvous of a command with its response.
//!
//! A command arms the slot and waits; the reader, which is the only writer,
//! puts the response in. Each arming is given a ticket, and the slot answers
//! only the ticket it was last armed for, so a waiter that was overtaken
//! never sees the response of another command.

use iec60870_5::telegram104::Telegram104;
use vstd::prelude::*;

verus! {

/// What the rendezvous slot holds.
#[derive(Debug)]
pub enum SlotState {
    /// No command is outstanding.
    Empty,
    /// A command waits for its response.
    Armed,
    /// The response has arrived and waits to be collected.
    Fulfilled(Telegram104),
    /// The command was given up before a response could arrive.
    Closed,
}

/// Why a command ended without a response.
#[derive(Copy, Clone, PartialEq, Eq, Debug, Structural)]
pub enum CommandError {
    /// No response arrived in time.
    Timeout,
    /// The slot was closed, or had been taken over by a later command.
    Closed,
}

/// What a waiting command finds when it looks into the slot.
#[derive(Debug)]
pub enum Poll {
    /// Nothing yet: keep waiting.
    Pending,
    /// The response.
    Ready(Telegram104),
    /// The slot was closed, or belongs to a later command.
    Closed,
}

/// The slot as a mathematical value: the ticket of the last arming and the
/// state of the slot.
pub struct Slot {
    pub ticket: u64,
    pub state: SlotState,
}

/// The ticket that follows `ticket`.
pub open spec fn next_ticket(ticket: u64) -> u64 {
    if ticket == u64::MAX {
        0
    } else {
        (ticket + 1) as u64
    }
}

impl Slot {
    /// The slot before any command.
    pub open spec fn initial() -> Slot {
        Slot { ticket: 0, state: SlotState::Empty }
    }

    /// The command with this ticket is outstanding: the slot is armed for
    /// it and nothing has answered or closed it yet.
    pub open spec fn awaits(self, ticket: u64) -> bool {
        self.ticket == ticket && self.state is Armed
    }

    /// Some command is outstanding.
    pub open spec fn armed(self) -> bool {
        self.state is Armed
    }

    /// The slot after a new command armed it. Whatever the slot held for an
    /// earlier command is gone.
    pub open spec fn arm(self) -> Slot {
        Slot { ticket: next_ticket(self.ticket), state: SlotState::Armed }
    }

    /// The slot after the reader offered it a response: an armed slot takes
    /// it, any other slot stays as it is.
    pub open spec fn offer(self, response: Telegram104) -> Slot {
        if self.armed() {
            Slot { ticket: self.ticket, state: SlotState::Fulfilled(response) }
        } else {
            self
        }
    }

    /// The slot after the command with this ticket was given up: if the slot
    /// still belongs to that command it is closed, and what it held is gone.
    pub open spec fn close(self, ticket: u64) -> Slot {
        if self.ticket == ticket && !(self.state is Empty) {
            Slot { ticket: self.ticket, state: SlotState::Closed }
        } else {
            self
        }
    }

    /// What the command with this ticket finds in the slot.
    pub open spec fn poll(self, ticket: u64) -> Poll {
        if self.ticket != ticket {
            Poll::Closed
        } else {
            match self.state {
                SlotState::Armed => Poll::Pending,
                SlotState::Fulfilled(response) => Poll::Ready(response),
                SlotState::Empty => Poll::Closed,
                SlotState::Closed => Poll::Closed,
            }
        }
    }

    /// The slot after the command with this ticket looked into it: a slot
    /// that was answered or closed is emptied, an armed one keeps waiting.
    pub open spec fn collect(self, ticket: u64) -> Slot {
        if self.ticket == ticket && !(self.state is Armed) {
            Slot { ticket: self.ticket, state: SlotState::Empty }
        } else {
            self
        }
    }

    /// What the command with this ticket ends with when its time is up: the
    /// response if one has arrived, else the reason why there is none.
    pub open spec fn outcome(self, ticket: u64) -> Result<Telegram104, CommandError> {
        if self.ticket != ticket {
            Err(CommandError::Timeout)
        } else {
            match self.state {
                SlotState::Armed => Err(CommandError::Timeout),
                SlotState::Fulfilled(response) => Ok(response),
                SlotState::Empty => Err(CommandError::Timeout),
                SlotState::Closed => Err(CommandError::Closed),
            }
        }
    }

    /// The slot after the time of the command with this ticket was up: a
    /// slot that still belongs to that command is emptied, so that nothing
    /// that arrives later can be taken for its response.
    pub open spec fn expire(self, ticket: u64) -> Slot {
        if self.ticket == ticket {
            Slot { ticket: self.ticket, state: SlotState::Empty }
        } else {
            self
        }
    }
}

/// The single rendezvous slot of a client.
pub struct Correlator {
    ticket: u64,
    state: SlotState,
}

impl View for Correlator {
    type V = Slot;

    closed spec fn view(&self) -> Slot {
        Slot { ticket: self.ticket, state: self.state }
    }
}

impl Correlator {
    /// A slot on which no command has been issued.
    pub fn new() -> (slot: Correlator)
        ensures
            slot@ == Slot::initial(),
    {
        Correlator { ticket: 0, state: SlotState::Empty }
    }

    /// Tells whether a command is outstanding.
    pub fn is_armed(&self) -> (armed: bool)
        ensures
            armed == self@.armed(),
    {
        match self.state {
            SlotState::Armed => true,
            _ => false,
        }
    }

    /// Arms the slot for a new command and returns its ticket.
    pub fn arm(&mut self) -> (ticket: u64)
        ensures
            final(self)@ == old(self)@.arm(),
            ticket == final(self)@.ticket,
            final(self)@.awaits(ticket),
    {
        self.ticket = if self.ticket == u64::MAX {
            0
        } else {
            self.ticket + 1
        };
        self.state = SlotState::Armed;
        self.ticket
    }

    /// Offers a response to the slot. An armed slot keeps it for the waiting
    /// command and nothing comes back; otherwise the response comes back
    /// untouched.
    pub fn offer(&mut self, response: Telegram104) -> (back: Option<Telegram104>)
        ensures
            final(self)@ == old(self)@.offer(response),
            back == if old(self)@.armed() {
                None
            } else {
                Some(response)
            },
    {
        if self.is_armed() {
            self.state = SlotState::Fulfilled(response);
            None
        } else {
            Some(response)
        }
    }

    /// Gives up the command with this ticket.
    pub fn close(&mut self, ticket: u64)
        ensures
            final(self)@ == old(self)@.close(ticket),
    {
        if self.ticket == ticket {
            match self.state {
                SlotState::Empty => {},
                _ => {
                    self.state = SlotState::Closed;
                },
            }
        }
    }

    /// Looks into the slot on behalf of the command with this ticket, and
    /// takes out what has ended the wait.
    pub fn collect(&mut self, ticket: u64) -> (found: Poll)
        ensures
            found == old(self)@.poll(ticket),
            final(self)@ == old(self)@.collect(ticket),
    {
        if self.ticket != ticket {
            return Poll::Closed;
        }
        if self.is_armed() {
            return Poll::Pending;
        }
        let mut state = SlotState::Empty;
        core::mem::swap(&mut self.state, &mut state);
        match state {
            SlotState::Fulfilled(response) => Poll::Ready(response),
            _ => Poll::Closed,
        }
    }

    /// Ends the wait of the command with this ticket because its time is
    /// up, and detaches the command from the slot.
    pub fn expire(&mut self, ticket: u64) -> (outcome: Result<Telegram104, CommandError>)
        ensures
            outcome == old(self)@.outcome(ticket),
            final(self)@ == old(self)@.expire(ticket),
    {
        if self.ticket != ticket {
            return Err(CommandError::Timeout);
        }
        let mut state = SlotState::Empty;
        core::mem::swap(&mut self.state, &mut state);
        match state {
            SlotState::Fulfilled(response) => Ok(response),
            SlotState::Closed => Err(CommandError::Closed),
            _ => Err(CommandError::Timeout),
        }
    }
}

/// At most one command is outstanding: the slot never waits for two tickets
/// at once.
pub proof fn lemma_single_in_flight(slot: Slot, a: u64, b: u64)
    requires
        a != b,
    ensures
        !(slot.awaits(a) && slot.awaits(b)),
{
}

/// A command that is issued retires whatever command was outstanding: once
/// the slot is armed anew, it waits for the new ticket and for no other, and
/// the holder of any other ticket finds the slot closed. So the telegram of
/// a command is never sent while an earlier command still waits.
pub proof fn lemma_arming_retires_earlier_commands(slot: Slot, earlier: u64)
    requires
        earlier != slot.arm().ticket,
    ensures
        slot.arm().awaits(slot.arm().ticket),
        !slot.arm().awaits(earlier),
        slot.arm().poll(earlier) is Closed,
{
}

/// Once the time of a command is up, a response that arrives late is not
/// kept: the slot hands it back, and the command that is armed next starts
/// with an empty wait.
pub proof fn lemma_late_response_is_not_kept(slot: Slot, ticket: u64, late: Telegram104)
    requires
        slot.awaits(ticket),
    ensures
        slot.outcome(ticket) == Err::<Telegram104, CommandError>(CommandError::Timeout),
        !slot.expire(ticket).armed(),
        slot.expire(ticket).offer(late) == slot.expire(ticket),
        slot.expire(ticket).offer(late).arm().poll(slot.expire(ticket).arm().ticket) is Pending,
{
}

/// A response reaches the command it was taken for and no other: after an
/// armed slot took a response, the waiting command finds exactly that
/// response, and every other ticket finds the slot closed.
pub proof fn lemma_response_reaches_its_command(slot: Slot, ticket: u64, other: u64, response: Telegram104)
    requires
        slot.awaits(ticket),
        other != ticket,
    ensures
        slot.offer(response).poll(ticket) == Poll::Ready(response),
        slot.offer(response).poll(other) is Closed,
{
}

} // verus!
