use vstd::prelude::*;

use crate::models::{heartbeat_of, NodeStatus, Timestamp};
use crate::node::Node;

verus! {

/// Pause before each heartbeat, in milliseconds.
pub const HEARTBEAT_INTERVAL_MS: u64 = 1000;

/// What the heartbeat task has just seen.
#[derive(Clone, Copy, Debug, PartialEq, Eq, Structural)]
pub enum HeartbeatEvent {
    /// The task was started.
    Started,
    /// A pause is over.
    Woke,
    /// A write to the status store came back.
    Sent { succeeded: bool },
}

/// What the heartbeat task does next.
#[derive(Clone, Copy, Debug, PartialEq, Eq, Structural)]
pub enum HeartbeatAction {
    /// Pause for `interval_ms`.
    Sleep { interval_ms: u64 },
    /// Write this node's current status to the store.
    Send,
}

/// The step that follows `event`: pause first, write after every pause, and
/// pause again after every write, failed or not.
pub open spec fn action_after(event: HeartbeatEvent) -> HeartbeatAction {
    match event {
        HeartbeatEvent::Woke => HeartbeatAction::Send,
        _ => HeartbeatAction::Sleep { interval_ms: HEARTBEAT_INTERVAL_MS },
    }
}

/// Decides the next step of the heartbeat task. No event ends the task.
pub fn run_heartbeats(event: HeartbeatEvent) -> (action: HeartbeatAction)
    ensures
        action == action_after(event),
{
    match event {
        HeartbeatEvent::Woke => HeartbeatAction::Send,
        _ => HeartbeatAction::Sleep { interval_ms: HEARTBEAT_INTERVAL_MS },
    }
}

impl Node {
    /// The report this node writes for a heartbeat at `now`.
    pub fn heartbeat_at(&self, now: Timestamp) -> (status: NodeStatus)
        ensures
            status@ == heartbeat_of(self.ip@, now),
    {
        NodeStatus::at(self.ip.clone(), now)
    }

    /// The report this node writes for a heartbeat at the current time.
    pub fn send_heartbeat(&self) -> (status: NodeStatus)
        ensures
            status@ == heartbeat_of(self.ip@, status.timestamp),
            status.timestamp.wf(),
    {
        NodeStatus::new(self.ip.clone())
    }
}

} // verus!
