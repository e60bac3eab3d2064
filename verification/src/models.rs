use vstd::prelude::*;
use vstd::string::*;

use crate::clock::now;

verus! {

/// Nanoseconds in one second.
pub const NANOS_PER_SEC: u32 = 1_000_000_000;

/// A point in time: whole seconds since the Unix epoch and the nanoseconds
/// into that second.
#[derive(Clone, Copy, Debug)]
pub struct Timestamp {
    pub secs: i64,
    pub nanos: u32,
}

impl View for Timestamp {
    type V = int;

    /// The instant as a count of nanoseconds since the Unix epoch.
    open spec fn view(&self) -> int {
        self.secs * 1_000_000_000 + self.nanos
    }
}

impl Timestamp {
    /// The nanosecond part stays inside its second.
    pub open spec fn wf(&self) -> bool {
        self.nanos < NANOS_PER_SEC
    }

    /// The instant as a count of nanoseconds since the Unix epoch.
    pub fn total_nanos(&self) -> (r: i128)
        ensures
            r == self@,
    {
        (self.secs as i128) * 1_000_000_000i128 + (self.nanos as i128)
    }
}

/// The text of the one status a node reports about itself.
pub open spec fn available() -> Seq<char> {
    "AVAILABLE"@
}

/// The last liveness report of one node.
#[derive(Debug)]
pub struct NodeStatus {
    pub ip: String,
    pub status: String,
    pub timestamp: Timestamp,
}

/// A report as plain mathematical values.
pub struct NodeStatusView {
    pub ip: Seq<char>,
    pub status: Seq<char>,
    pub timestamp: Timestamp,
}

impl View for NodeStatus {
    type V = NodeStatusView;

    open spec fn view(&self) -> NodeStatusView {
        NodeStatusView { ip: self.ip@, status: self.status@, timestamp: self.timestamp }
    }
}

/// Stored reports, each as plain values, in their stored order.
pub open spec fn statuses_view(rows: Seq<NodeStatus>) -> Seq<NodeStatusView> {
    rows.map_values(|row: NodeStatus| row@)
}

/// The report that `ip` is available as of `timestamp`, as plain values.
pub open spec fn heartbeat_of(ip: Seq<char>, timestamp: Timestamp) -> NodeStatusView {
    NodeStatusView { ip, status: available(), timestamp }
}

impl NodeStatus {
    /// A report that `ip` is available as of the current time.
    pub fn new(ip: String) -> (r: NodeStatus)
        ensures
            r@ == heartbeat_of(ip@, r.timestamp),
            r.timestamp.wf(),
    {
        NodeStatus::at(ip, now())
    }

    /// A report that `ip` is available as of `timestamp`.
    pub fn at(ip: String, timestamp: Timestamp) -> (r: NodeStatus)
        ensures
            r@ == heartbeat_of(ip@, timestamp),
    {
        NodeStatus { ip, status: "AVAILABLE".to_owned(), timestamp }
    }

    /// A copy of this report.
    pub fn duplicate(&self) -> (r: NodeStatus)
        ensures
            r@ == self@,
    {
        NodeStatus {
            ip: self.ip.clone(),
            status: self.status.clone(),
            timestamp: self.timestamp,
        }
    }
}

} // verus!
