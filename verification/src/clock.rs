use vstd::prelude::*;

use crate::models::Timestamp;

verus! {

/// Reads the wall clock through `chrono::Utc::now` and hands the instant back
/// as seconds and nanoseconds since the Unix epoch.
///
/// Trusted: the nanosecond part is below one second. `Utc::now` builds its
/// value from the sub-second nanoseconds of a `std::time::Duration`, and
/// `timestamp_subsec_nanos` gives that number back. Nothing is claimed about
/// which instant comes out.
#[verifier::external_body]
pub(crate) fn now() -> (r: Timestamp)
    ensures
        r.wf(),
{
    let t = chrono::Utc::now();
    Timestamp { secs: t.timestamp(), nanos: t.timestamp_subsec_nanos() }
}

} // verus!
