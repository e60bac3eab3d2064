use vstd::prelude::*;

use crate::api::ServiceView;
use crate::models::{available, heartbeat_of, statuses_view, NodeStatus, NodeStatusView, Timestamp};
use crate::node::{is_live, live_rows, live_services, liveness_window_nanos, service_of};

verus! {

/// Some row of `rows` is keyed by `ip`.
pub open spec fn has_address(rows: Seq<NodeStatusView>, ip: Seq<char>) -> bool {
    exists|i: int| 0 <= i < rows.len() && (#[trigger] rows[i]).ip == ip
}

/// The place of a row keyed by `ip`, where there is one.
pub open spec fn index_of_address(rows: Seq<NodeStatusView>, ip: Seq<char>) -> int {
    choose|i: int| 0 <= i < rows.len() && (#[trigger] rows[i]).ip == ip
}

/// No two rows share an address.
pub open spec fn distinct_addresses(rows: Seq<NodeStatusView>) -> bool {
    forall|i: int, j: int|
        0 <= i < j < rows.len() ==> (#[trigger] rows[i]).ip != (#[trigger] rows[j]).ip
}

/// The rows after `status` is written: its address's row takes the new
/// status and timestamp in place, or a new row is added at the end when the
/// address was unknown.
pub open spec fn upsert(rows: Seq<NodeStatusView>, status: NodeStatusView) -> Seq<NodeStatusView> {
    if has_address(rows, status.ip) {
        rows.update(index_of_address(rows, status.ip), status)
    } else {
        rows.push(status)
    }
}

/// The status store held in memory: the latest report of every address ever
/// written, one row each, in the order in which the addresses first came.
pub struct Repo {
    rows: Vec<NodeStatus>,
}

impl View for Repo {
    type V = Seq<NodeStatusView>;

    closed spec fn view(&self) -> Seq<NodeStatusView> {
        statuses_view(self.rows@)
    }
}

impl Repo {
    /// No address has two rows.
    pub open spec fn wf(&self) -> bool {
        distinct_addresses(self@)
    }

    /// An empty store.
    pub fn new() -> (repo: Repo)
        ensures
            repo@ == Seq::<NodeStatusView>::empty(),
            repo.wf(),
    {
        let repo = Repo { rows: Vec::new() };
        assert(repo@ =~= Seq::<NodeStatusView>::empty());
        repo
    }

    /// Writes `status`: inserts a row for its address, or overwrites the
    /// status and timestamp of the row the address already has.
    pub fn update_status(&mut self, status: NodeStatus)
        requires
            old(self).wf(),
        ensures
            final(self)@ == upsert(old(self)@, status@),
            final(self).wf(),
    {
        let ghost before = self@;
        let mut i: usize = 0;
        while i < self.rows.len()
            invariant
                i <= self.rows.len(),
                self@ == before,
                before == old(self)@,
                distinct_addresses(before),
                forall|k: int| 0 <= k < i ==> (#[trigger] before[k]).ip != status.ip@,
            decreases self.rows.len() - i,
        {
            if self.rows[i].ip == status.ip {
                proof {
                    assert(before[i as int].ip == status.ip@);
                    lemma_upsert_known(before, i as int, status@);
                }
                self.rows.set(i, status);
                assert(self@ =~= before.update(i as int, status@));
                return ;
            }
            i += 1;
        }
        proof {
            lemma_upsert_unknown(before, status@);
        }
        self.rows.push(status);
        assert(self@ =~= before.push(status@));
    }

    /// Every stored row, unfiltered, in stored order.
    pub fn list_statuses(&self) -> (rows: Vec<NodeStatus>)
        ensures
            statuses_view(rows@) == self@,
    {
        let mut rows: Vec<NodeStatus> = Vec::new();
        let mut i: usize = 0;
        while i < self.rows.len()
            invariant
                i <= self.rows.len(),
                statuses_view(rows@) =~= self@.take(i as int),
            decreases self.rows.len() - i,
        {
            let ghost copied = rows@;
            let row = self.rows[i].duplicate();
            rows.push(row);
            assert(statuses_view(rows@) =~= statuses_view(copied).push(row@));
            assert(self@.take(i as int + 1) =~= self@.take(i as int).push(self.rows@[i as int]@));
            i += 1;
        }
        assert(self@.take(i as int) =~= self@);
        rows
    }
}

/// Writing to an address that has a row at `i` replaces exactly that row
/// and keeps addresses distinct.
pub proof fn lemma_upsert_known(rows: Seq<NodeStatusView>, i: int, status: NodeStatusView)
    requires
        distinct_addresses(rows),
        0 <= i < rows.len(),
        rows[i].ip == status.ip,
    ensures
        has_address(rows, status.ip),
        index_of_address(rows, status.ip) == i,
        upsert(rows, status) == rows.update(i, status),
        distinct_addresses(upsert(rows, status)),
{
    let j = index_of_address(rows, status.ip);
    assert(0 <= j < rows.len() && rows[j].ip == status.ip);
    if j < i {
        assert(rows[j].ip != rows[i].ip);
    } else if i < j {
        assert(rows[i].ip != rows[j].ip);
    }
    let after = rows.update(i, status);
    assert forall|a: int, b: int| 0 <= a < b < after.len() implies (#[trigger] after[a]).ip != (
    #[trigger] after[b]).ip by {
        assert(after[a].ip == rows[a].ip);
        assert(after[b].ip == rows[b].ip);
    }
}

/// Writing to an address that has no row adds one at the end and keeps
/// addresses distinct.
pub proof fn lemma_upsert_unknown(rows: Seq<NodeStatusView>, status: NodeStatusView)
    requires
        distinct_addresses(rows),
        forall|k: int| 0 <= k < rows.len() ==> (#[trigger] rows[k]).ip != status.ip,
    ensures
        !has_address(rows, status.ip),
        upsert(rows, status) == rows.push(status),
        distinct_addresses(upsert(rows, status)),
{
    let after = rows.push(status);
    assert forall|a: int, b: int| 0 <= a < b < after.len() implies (#[trigger] after[a]).ip != (
    #[trigger] after[b]).ip by {
        if b < rows.len() {
            assert(after[a] == rows[a]);
            assert(after[b] == rows[b]);
        } else {
            assert(after[a] == rows[a]);
        }
    }
}

/// What a write leaves behind: addresses stay distinct, the written address
/// has a row, that row is the written report, and every other address keeps
/// the row it had.
pub proof fn lemma_upsert_effect(rows: Seq<NodeStatusView>, status: NodeStatusView)
    requires
        distinct_addresses(rows),
    ensures
        distinct_addresses(upsert(rows, status)),
        has_address(upsert(rows, status), status.ip),
        forall|i: int|
            0 <= i < upsert(rows, status).len() && (#[trigger] upsert(rows, status)[i]).ip
                == status.ip ==> upsert(rows, status)[i] == status,
        forall|i: int|
            0 <= i < rows.len() && (#[trigger] rows[i]).ip != status.ip ==> upsert(rows, status)[i]
                == rows[i],
        rows.len() <= upsert(rows, status).len() <= rows.len() + 1,
{
    let after = upsert(rows, status);
    if has_address(rows, status.ip) {
        let i = index_of_address(rows, status.ip);
        lemma_upsert_known(rows, i, status);
        assert(after[i].ip == status.ip);
        assert forall|k: int| 0 <= k < after.len() && (#[trigger] after[k]).ip
            == status.ip implies after[k] == status by {
            if k != i {
                assert(after[k] == rows[k]);
                if k < i {
                    assert(rows[k].ip != rows[i].ip);
                } else {
                    assert(rows[i].ip != rows[k].ip);
                }
            }
        }
    } else {
        lemma_upsert_unknown(rows, status);
        assert(after[rows.len() as int].ip == status.ip);
        assert forall|k: int| 0 <= k < after.len() && (#[trigger] after[k]).ip
            == status.ip implies after[k] == status by {
            if k < rows.len() {
                assert(after[k] == rows[k]);
                assert(rows[k].ip != status.ip);
            }
        }
    }
}

/// Two writes for one address, one after the other, leave what the second
/// write alone would have left: a single row for that address, holding the
/// second report.
pub proof fn law_second_write_wins(
    rows: Seq<NodeStatusView>,
    first: NodeStatusView,
    second: NodeStatusView,
)
    requires
        distinct_addresses(rows),
        first.ip == second.ip,
    ensures
        upsert(upsert(rows, first), second) == upsert(rows, second),
        distinct_addresses(upsert(upsert(rows, first), second)),
        has_address(upsert(upsert(rows, first), second), second.ip),
        forall|i: int|
            #![trigger upsert(upsert(rows, first), second)[i]]
            0 <= i < upsert(upsert(rows, first), second).len() && upsert(
                upsert(rows, first),
                second,
            )[i].ip == second.ip ==> upsert(upsert(rows, first), second)[i] == second,
{
    let once = upsert(rows, first);
    lemma_upsert_effect(rows, first);
    lemma_upsert_effect(rows, second);
    if has_address(rows, first.ip) {
        let i = index_of_address(rows, first.ip);
        lemma_upsert_known(rows, i, first);
        lemma_upsert_known(rows, i, second);
        lemma_upsert_known(once, i, second);
        assert(once.update(i, second) =~= rows.update(i, second));
    } else {
        lemma_upsert_unknown(rows, first);
        lemma_upsert_unknown(rows, second);
        let last = rows.len() as int;
        lemma_upsert_known(once, last, second);
        assert(once.update(last, second) =~= rows.push(second));
    }
}

/// A health report made before the liveness window has run out since an
/// address's heartbeat lists that address, with the status available.
pub proof fn law_fresh_heartbeat_is_listed(
    rows: Seq<NodeStatusView>,
    ip: Seq<char>,
    sent: Timestamp,
    now: Timestamp,
)
    requires
        distinct_addresses(rows),
        now@ - sent@ < liveness_window_nanos(),
    ensures
        live_services(upsert(rows, heartbeat_of(ip, sent)), now).contains(
            ServiceView { ip, status: available() },
        ),
{
    let beat = heartbeat_of(ip, sent);
    let after = upsert(rows, beat);
    lemma_upsert_effect(rows, beat);
    let i = index_of_address(after, ip);
    assert(after[i] == beat);
    let pred = |row: NodeStatusView| is_live(row.timestamp, now);
    assert(pred(after[i]));
    after.lemma_filter_contains(pred, i);
    let live = live_rows(after, now);
    assert(live.contains(beat));
    let k = choose|k: int| 0 <= k < live.len() && live[k] == beat;
    let services = live_services(after, now);
    assert(services[k] == service_of(beat));
}

/// A health report made once the liveness window has run out since an
/// address's last heartbeat lists no peer with that address.
pub proof fn law_stale_heartbeat_is_dropped(
    rows: Seq<NodeStatusView>,
    ip: Seq<char>,
    sent: Timestamp,
    now: Timestamp,
)
    requires
        distinct_addresses(rows),
        now@ - sent@ >= liveness_window_nanos(),
    ensures
        forall|k: int|
            #![trigger live_services(upsert(rows, heartbeat_of(ip, sent)), now)[k]]
            0 <= k < live_services(upsert(rows, heartbeat_of(ip, sent)), now).len()
                ==> live_services(upsert(rows, heartbeat_of(ip, sent)), now)[k].ip != ip,
{
    let beat = heartbeat_of(ip, sent);
    let after = upsert(rows, beat);
    lemma_upsert_effect(rows, beat);
    let pred = |row: NodeStatusView| is_live(row.timestamp, now);
    let live = live_rows(after, now);
    let services = live_services(after, now);
    assert forall|k: int| 0 <= k < services.len() implies (#[trigger] services[k]).ip != ip by {
        assert(services[k] == service_of(live[k]));
        after.lemma_filter_pred(pred, k);
        assert(live.contains(live[k]));
        after.lemma_filter_contains_rev(pred, live[k]);
        let j = choose|j: int| 0 <= j < after.len() && after[j] == live[k];
        if after[j].ip == ip {
            assert(after[j] == beat);
            assert(!is_live(beat.timestamp, now));
        }
    }
}

} // verus!
