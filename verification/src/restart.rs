//! The notification that the reader has started on a new session.

use vstd::prelude::*;

verus! {

/// How a queue treats a value that is put into it.
#[derive(Copy, Clone, PartialEq, Eq, Debug, Structural)]
pub enum DeliveryPolicy {
    /// Always deliver; fail if there is no room.
    Always,
    /// Always deliver; drop the previous value if there is no room.
    Latest,
    /// Skip the value if there is no room.
    Optional,
    /// Always deliver, but keep a single copy: a value that is put in
    /// replaces the copies that wait.
    Single,
    /// Keep a single copy, and skip the value if there is no room.
    SingleOptional,
}

/// The room of the queue of restart events: one, so that never more than one
/// event waits for the consumer.
pub const RESTART_QUEUE_CAPACITY: usize = 1;

/// Received every time the reader has been restarted. It carries no value.
///
/// A restart says that the session was set up anew. Whether the network or
/// the peer caused it cannot be told from this side.
#[derive(Copy, Clone, PartialEq, Eq, Debug, Structural)]
pub struct RestartEvent {}

impl RestartEvent {
    /// Restart events are delivered in a single copy, however many restarts
    /// took place before the consumer looked.
    pub fn delivery_policy(&self) -> (policy: DeliveryPolicy)
        ensures
            policy == DeliveryPolicy::Single,
    {
        DeliveryPolicy::Single
    }
}

impl Default for RestartEvent {
    fn default() -> (event: RestartEvent)
        ensures
            event == (RestartEvent {  }),
    {
        RestartEvent {  }
    }
}

} // verus!
