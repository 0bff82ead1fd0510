//! The one rule of the queue of telemetry events: how long an event that
//! was sent is kept.

use vstd::prelude::*;

verus! {

/// The time for which an event that was sent is kept: seven days, in
/// seconds.
pub open spec fn retention_secs() -> int {
    604800
}

/// The time before which events that were sent are removed, for a cleanup
/// at the time `now`; both in seconds since the epoch.
pub fn cleanup_cutoff(now: i64) -> (r: i64)
    requires
        now - retention_secs() >= i64::MIN,
    ensures
        r == now - retention_secs(),
{
    now - 604800
}

} // verus!
