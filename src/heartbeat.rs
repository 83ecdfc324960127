//! Pacing of the liveness pings sent to an external watchdog.

use vstd::prelude::*;

verus! {

/// Minimum time between two pings, in milliseconds.
pub const HEARTBEAT_INTERVAL_MILLIS: u64 = 60_000;

/// Whether a ping is due at `now`, and the last-sent time afterwards. A pacer that
/// never sent counts as having sent one interval ago.
pub open spec fn pace_spec(last_sent: Option<u64>, now: u64) -> (bool, Option<u64>) {
    match last_sent {
        Some(last) if now - last < HEARTBEAT_INTERVAL_MILLIS => (false, last_sent),
        _ => (true, Some(now)),
    }
}

/// The time of the last ping, shared by every caller in the process.
pub struct HeartbeatPacer {
    pub last_sent_millis: Option<u64>,
}

impl HeartbeatPacer {
    pub fn new() -> (r: Self)
        ensures
            r.last_sent_millis.is_none(),
    {
        HeartbeatPacer { last_sent_millis: None }
    }

    /// Whether to ping at `now_millis` (a monotonic clock). When it says yes, the time
    /// is recorded whether or not the ping then reaches the watchdog: the pacer paces,
    /// it does not promise delivery.
    pub fn try_acquire(&mut self, now_millis: u64) -> (r: bool)
        requires
            old(self).last_sent_millis matches Some(last) ==> last <= now_millis,
        ensures
            (r, final(self).last_sent_millis) == pace_spec(old(self).last_sent_millis, now_millis),
    {
        match self.last_sent_millis {
            Some(last) if now_millis - last < HEARTBEAT_INTERVAL_MILLIS => false,
            _ => {
                self.last_sent_millis = Some(now_millis);
                true
            },
        }
    }
}

/// Two pings are at least the interval apart: after a ping at `first`, any number of
/// calls that do not ping leave the record as it was, and a later call at `second`
/// pings only if `second - first` is at least the interval.
pub proof fn lemma_pings_paced(last: Option<u64>, first: u64, quiet: Seq<u64>, second: u64)
    requires
        last matches Some(l) ==> l <= first,
        pace_spec(last, first).0,
        forall|i: int| 0 <= i < quiet.len() ==> first <= #[trigger] quiet[i] <= second,
        forall|i: int| 0 <= i < quiet.len() ==> !pace_spec(Some(first), #[trigger] quiet[i]).0,
        first <= second,
    ensures
        pace_spec(last, first).1 == Some(first),
        forall|i: int| 0 <= i < quiet.len() ==> pace_spec(Some(first), #[trigger] quiet[i]).1 == Some(first),
        pace_spec(Some(first), second).0 ==> second - first >= HEARTBEAT_INTERVAL_MILLIS,
{
}

} // verus!
