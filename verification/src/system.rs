use vstd::prelude::*;

use crate::duration::lemma_duration_view_injective;
use crate::duration::Duration;

verus! {

/// A wall-clock reading, represented as a duration since the Unix epoch
/// (1970-01-01T00:00:00Z).
///
/// Its mathematical value, written `t@`, is that duration in nanoseconds.
/// Wall clocks may be adjusted backward, so later readings are not guaranteed
/// to compare greater.
#[derive(Debug, Clone, Copy, PartialEq, Eq, PartialOrd, Ord, Hash, Structural)]
pub struct SystemTime {
    since_unix_epoch: Duration,
}

impl View for SystemTime {
    type V = int;

    closed spec fn view(&self) -> int {
        self.since_unix_epoch@
    }
}

impl SystemTime {
    /// The Unix epoch itself: zero duration since the epoch.
    pub fn unix_epoch() -> (r: Self)
        ensures
            r@ == 0,
    {
        SystemTime { since_unix_epoch: Duration::zero() }
    }

    /// Creates a `SystemTime` from a duration since the Unix epoch.
    pub fn from_unix_duration(since_unix_epoch: Duration) -> (r: Self)
        ensures
            r@ == since_unix_epoch@,
    {
        SystemTime { since_unix_epoch }
    }

    /// Returns this timestamp as a duration since the Unix epoch.
    pub fn as_unix_duration(self) -> (r: Duration)
        ensures
            r@ == self@,
    {
        self.since_unix_epoch
    }

    /// Returns the duration since an earlier `SystemTime`.
    ///
    /// When `self` is at or after `earlier` the forward gap comes back as
    /// `Ok`; otherwise the reverse gap — how far `earlier` is ahead — comes
    /// back as `Err`, so a caller can recover the magnitude of a backward
    /// clock adjustment.
    pub fn duration_since(&self, earlier: SystemTime) -> (r: Result<Duration, Duration>)
        ensures
            r is Ok <==> self@ >= earlier@,
            r matches Ok(d) ==> d@ == self@ - earlier@,
            r matches Err(d) ==> d@ == earlier@ - self@,
    {
        match self.since_unix_epoch.checked_sub(earlier.since_unix_epoch) {
            Some(forward) => Ok(forward),
            None => Err(earlier.since_unix_epoch.saturating_sub(self.since_unix_epoch)),
        }
    }
}

/// Round trip: wrapping a duration in a `SystemTime` and reading it back
/// returns the same duration. `t` stands for any result of
/// `SystemTime::from_unix_duration(d)` and `back` for any result of
/// `t.as_unix_duration()`, as their contracts describe them.
pub proof fn lemma_unix_duration_round_trip(d: Duration, t: SystemTime, back: Duration)
    requires
        d.wf(),
        back.wf(),
        t@ == d@,
        back@ == t@,
    ensures
        back == d,
{
    lemma_duration_view_injective(back, d);
}

/// Ordering duality: when `later` is ahead of `earlier` by `k` nanoseconds,
/// the forward query succeeds with the gap `k` and, for a strictly positive
/// gap, the reverse query fails with the same gap. `fwd` stands for any
/// result of `later.duration_since(earlier)` and `rev` for any result of
/// `earlier.duration_since(later)`, as that contract describes them.
pub proof fn lemma_duration_since_duality(
    earlier: SystemTime,
    later: SystemTime,
    k: int,
    fwd: Result<Duration, Duration>,
    rev: Result<Duration, Duration>,
)
    requires
        0 <= k,
        later@ == earlier@ + k,
        fwd is Ok <==> later@ >= earlier@,
        fwd matches Ok(d) ==> d@ == later@ - earlier@,
        rev is Ok <==> earlier@ >= later@,
        rev matches Ok(d) ==> d@ == earlier@ - later@,
        rev matches Err(d) ==> d@ == later@ - earlier@,
    ensures
        fwd matches Ok(d) && d@ == k,
        k > 0 ==> (rev matches Err(d) && d@ == k),
        k == 0 ==> (rev matches Ok(d) && d@ == 0),
{
}

} // verus!
