use vstd::prelude::*;

use crate::api::{
    services_view, Error, HealthcheckResponse, ResponseView, Service, ServiceView, Status,
    StatusView,
};
use crate::clock::now;
use crate::models::{statuses_view, NodeStatus, NodeStatusView, Timestamp};
use crate::resolver::{is_ipv4_shaped, local_ip};

verus! {

/// How long a report keeps its node alive, in seconds.
pub const LIVENESS_WINDOW_SECS: u64 = 10;

/// How long a report keeps its node alive, in nanoseconds.
pub open spec fn liveness_window_nanos() -> int {
    LIVENESS_WINDOW_SECS * 1_000_000_000
}

/// The instant before or at which a report is too old at `now`.
pub open spec fn cutoff(now: Timestamp) -> int {
    now@ - liveness_window_nanos()
}

/// A report made at `reported` still counts at `now`: it is strictly later
/// than the cutoff.
pub open spec fn is_live(reported: Timestamp, now: Timestamp) -> bool {
    reported@ > cutoff(now)
}

/// What a health report shows of a stored report.
pub open spec fn service_of(row: NodeStatusView) -> ServiceView {
    ServiceView { ip: row.ip, status: row.status }
}

/// The stored reports that still count at `now`, in their stored order.
pub open spec fn live_rows(rows: Seq<NodeStatusView>, now: Timestamp) -> Seq<NodeStatusView> {
    rows.filter(|row: NodeStatusView| is_live(row.timestamp, now))
}

/// The peers a health report at `now` lists for the stored reports `rows`.
pub open spec fn live_services(rows: Seq<NodeStatusView>, now: Timestamp) -> Seq<ServiceView> {
    live_rows(rows, now).map_values(|row: NodeStatusView| service_of(row))
}

/// Appending one stored report appends its peer exactly when it is live.
pub proof fn lemma_live_services_push(
    rows: Seq<NodeStatusView>,
    row: NodeStatusView,
    now: Timestamp,
)
    ensures
        live_services(rows.push(row), now) == if is_live(row.timestamp, now) {
            live_services(rows, now).push(service_of(row))
        } else {
            live_services(rows, now)
        },
{
    reveal(Seq::filter);
    assert(rows.push(row).drop_last() =~= rows);
    if is_live(row.timestamp, now) {
        assert(live_services(rows.push(row), now) =~= live_services(rows, now).push(
            service_of(row),
        ));
    }
}

/// Whether a report made at `reported` still counts at `now`.
pub fn check_live(reported: &Timestamp, now: &Timestamp) -> (live: bool)
    ensures
        live == is_live(*reported, *now),
{
    reported.total_nanos() > now.total_nanos() - (LIVENESS_WINDOW_SECS as i128) * 1_000_000_000i128
}

/// One running instance, known to its peers by `ip`.
#[derive(Debug)]
pub struct Node {
    pub ip: String,
}

impl Node {
    /// A node that goes by the discovered address, or by a generated
    /// placeholder when discovery failed.
    pub fn new(discovered: Option<String>) -> (node: Node)
        ensures
            discovered matches Some(found) ==> node.ip@ == found@,
            discovered is None ==> is_ipv4_shaped(node.ip@),
    {
        Node { ip: local_ip(discovered) }
    }

    /// The health report this node gives at `now` for the stored reports
    /// `rows`.
    pub open spec fn report(&self, rows: Seq<NodeStatusView>, now: Timestamp) -> StatusView {
        StatusView { ip: self.ip@, services: live_services(rows, now) }
    }

    /// Builds the health report as of `now`: this node's address and, in
    /// stored order, every peer whose report is later than the cutoff.
    pub fn report_at(&self, now: Timestamp, rows: &Vec<NodeStatus>) -> (status: Status)
        ensures
            status@ == self.report(statuses_view(rows@), now),
    {
        let mut services: Vec<Service> = Vec::new();
        let mut i: usize = 0;
        proof {
            reveal(Seq::filter);
            assert(statuses_view(rows@.take(0)) =~= Seq::<NodeStatusView>::empty());
            assert(services_view(services@) =~= live_services(statuses_view(rows@.take(0)), now));
        }
        while i < rows.len()
            invariant
                i <= rows.len(),
                services_view(services@) == live_services(
                    statuses_view(rows@.take(i as int)),
                    now,
                ),
            decreases rows.len() - i,
        {
            let row = &rows[i];
            proof {
                assert(statuses_view(rows@.take(i as int + 1)) =~= statuses_view(
                    rows@.take(i as int),
                ).push(row@));
                lemma_live_services_push(statuses_view(rows@.take(i as int)), row@, now);
            }
            if check_live(&row.timestamp, &now) {
                let ghost before = services@;
                services.push(Service { ip: row.ip.clone(), status: row.status.clone() });
                assert(services_view(services@) =~= services_view(before).push(service_of(row@)));
            }
            i += 1;
        }
        assert(rows@.take(i as int) =~= rows@);
        Status { ip: self.ip.clone(), services }
    }

    /// What a health check at `now` comes to, given how reading the store
    /// went: the report over the rows read, or the text of the read's error.
    pub open spec fn outcome(
        &self,
        listed: Result<Vec<NodeStatus>, String>,
        now: Timestamp,
    ) -> Result<StatusView, Seq<char>> {
        match listed {
            Ok(rows) => Ok(self.report(statuses_view(rows@), now)),
            Err(error) => Err(error@),
        }
    }

    /// Turns the outcome of reading the store into the outcome of a health
    /// check as of `now`. A failed read fails the health check with the same
    /// text.
    pub fn process_healthcheck_at(
        &self,
        now: Timestamp,
        listed: Result<Vec<NodeStatus>, String>,
    ) -> (result: Result<Status, String>)
        ensures
            outcome_view(result) == self.outcome(listed, now),
    {
        match listed {
            Ok(rows) => Ok(self.report_at(now, &rows)),
            Err(error) => Err(error),
        }
    }

    /// Turns the outcome of reading the store into the outcome of a health
    /// check as of the current time.
    pub fn process_healthcheck(&self, listed: Result<Vec<NodeStatus>, String>) -> (result: Result<
        Status,
        String,
    >)
        ensures
            exists|now: Timestamp| now.wf() && outcome_view(result) == #[trigger] self.outcome(listed, now),
    {
        let now = now();
        let result = self.process_healthcheck_at(now, listed);
        assert(outcome_view(result) == self.outcome(listed, now));
        result
    }

    /// The answer to a health check at `now`, given how reading the store
    /// went.
    pub fn healthcheck_at(&self, now: Timestamp, listed: Result<Vec<NodeStatus>, String>) -> (response:
        HealthcheckResponse)
        ensures
            response@ == response_for(self.outcome(listed, now)),
    {
        respond(self.process_healthcheck_at(now, listed))
    }

    /// The answer to a health check at the current time, given how reading
    /// the store went.
    pub fn healthcheck(&self, listed: Result<Vec<NodeStatus>, String>) -> (response:
        HealthcheckResponse)
        ensures
            exists|now: Timestamp| now.wf() && response@ == response_for(#[trigger] self.outcome(listed, now)),
    {
        let now = now();
        let response = self.healthcheck_at(now, listed);
        assert(response@ == response_for(self.outcome(listed, now)));
        response
    }
}

/// The outcome of a health check as plain mathematical values.
pub open spec fn outcome_view(result: Result<Status, String>) -> Result<StatusView, Seq<char>> {
    match result {
        Ok(status) => Ok(status@),
        Err(error) => Err(error@),
    }
}

/// The answer that goes with an outcome: the report when there is one,
/// otherwise service unavailable with the error's text.
pub open spec fn response_for(outcome: Result<StatusView, Seq<char>>) -> ResponseView {
    match outcome {
        Ok(status) => ResponseView::Healthy(status),
        Err(error) => ResponseView::ServiceUnavailable(error),
    }
}

/// Wraps the outcome of a health check into its answer.
pub fn respond(result: Result<Status, String>) -> (response: HealthcheckResponse)
    ensures
        response@ == response_for(outcome_view(result)),
{
    match result {
        Ok(status) => HealthcheckResponse::Healthy(status),
        Err(error) => HealthcheckResponse::ServiceUnavailable(Error { error }),
    }
}

} // verus!
