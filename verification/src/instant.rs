use vstd::prelude::*;
use vstd::std_specs::ops::AddSpec;
use vstd::std_specs::ops::SubSpec;

use crate::duration::duration_from_nanos;
use crate::duration::lemma_duration_from_nanos;
use crate::duration::lemma_duration_view_injective;
use crate::duration::lemma_duration_view_range;
use crate::duration::max_duration_nanos;
use crate::duration::Duration;

verus! {

/// A monotonic clock reading.
///
/// An instant is backed by a [`Duration`] of ticks measured from an arbitrary
/// reference point that is fixed for the lifetime of the process. Its
/// mathematical value, written `i@`, is that duration in nanoseconds.
/// Differences between instants are meaningful only when both come from the
/// same reference point.
#[derive(Debug, Clone, Copy, PartialEq, Eq, PartialOrd, Ord, Hash, Structural)]
pub struct Instant {
    ticks: Duration,
}

impl View for Instant {
    type V = int;

    closed spec fn view(&self) -> int {
        self.ticks@
    }
}

impl Instant {
    /// Well-formedness: the backing ticks are a well-formed duration. Every
    /// `Instant` that exec code can build satisfies it.
    #[verifier::type_invariant]
    pub closed spec fn wf(self) -> bool {
        self.ticks.wf()
    }

    /// Creates an `Instant` from monotonic ticks.
    pub fn from_ticks(ticks: Duration) -> (r: Self)
        ensures
            r@ == ticks@,
    {
        proof {
            use_type_invariant(&ticks);
        }
        Instant { ticks }
    }

    /// Returns the monotonic ticks for this instant.
    pub fn to_ticks(self) -> (r: Duration)
        ensures
            r@ == self@,
    {
        self.ticks
    }

    /// Returns the duration since an earlier instant, saturating at zero when
    /// `earlier` is in fact the later reading.
    pub fn duration_since(&self, earlier: Instant) -> (r: Duration)
        ensures
            r@ == if self@ >= earlier@ {
                self@ - earlier@
            } else {
                0
            },
    {
        self.ticks.saturating_sub(earlier.ticks)
    }

    /// Returns the exact duration since an earlier instant, or `None` exactly
    /// when `earlier` is strictly after `self`.
    pub fn checked_duration_since(&self, earlier: Instant) -> (r: Option<Duration>)
        ensures
            r is Some <==> self@ >= earlier@,
            r matches Some(d) ==> d@ == self@ - earlier@,
    {
        self.ticks.checked_sub(earlier.ticks)
    }

    /// Moves this instant forward by `duration`, returning `None` exactly when
    /// the sum would pass the representable maximum.
    pub fn checked_add(self, duration: Duration) -> (r: Option<Self>)
        ensures
            r is Some <==> self@ + duration@ <= max_duration_nanos(),
            r matches Some(i) ==> i@ == self@ + duration@,
    {
        match self.ticks.checked_add(duration) {
            Some(ticks) => {
                proof {
                    use_type_invariant(&ticks);
                }
                Some(Instant { ticks })
            },
            None => None,
        }
    }

    /// Moves this instant backward by `duration`, returning `None` exactly
    /// when that would reach before the reference point.
    pub fn checked_sub(self, duration: Duration) -> (r: Option<Self>)
        ensures
            r is Some <==> self@ >= duration@,
            r matches Some(i) ==> i@ == self@ - duration@,
    {
        match self.ticks.checked_sub(duration) {
            Some(ticks) => {
                proof {
                    use_type_invariant(&ticks);
                }
                Some(Instant { ticks })
            },
            None => None,
        }
    }
}

/// The instant whose mathematical value is `n` nanoseconds of ticks, for `n`
/// within the representable range.
pub closed spec fn instant_from_nanos(n: int) -> Instant {
    Instant { ticks: duration_from_nanos(n) }
}

/// Within the representable range, [`instant_from_nanos`] is well-formed and
/// inverts the view.
pub proof fn lemma_instant_from_nanos(n: int)
    requires
        0 <= n <= max_duration_nanos(),
    ensures
        instant_from_nanos(n).wf(),
        instant_from_nanos(n)@ == n,
{
    lemma_duration_from_nanos(n);
}

impl core::ops::Add<Duration> for Instant {
    type Output = Instant;

    /// Ergonomic form of [`Instant::checked_add`] for call sites where
    /// overflow indicates a programming error; the precondition excludes it.
    fn add(self, other: Duration) -> (r: Instant) {
        let sum = self.checked_add(other).expect("overflow while adding Duration to Instant");
        proof {
            use_type_invariant(&sum);
            lemma_duration_view_range(self.ticks);
            lemma_duration_view_range(other);
            lemma_duration_from_nanos(self@ + other@);
            lemma_duration_view_injective(sum.ticks, duration_from_nanos(self@ + other@));
        }
        sum
    }
}

impl vstd::std_specs::ops::AddSpecImpl<Duration> for Instant {
    open spec fn obeys_add_spec() -> bool {
        true
    }

    open spec fn add_req(self, other: Duration) -> bool {
        self@ + other@ <= max_duration_nanos()
    }

    open spec fn add_spec(self, other: Duration) -> Instant {
        instant_from_nanos(self@ + other@)
    }
}

impl core::ops::Sub<Duration> for Instant {
    type Output = Instant;

    /// Ergonomic form of [`Instant::checked_sub`] for call sites where
    /// underflow indicates a programming error; the precondition excludes it.
    fn sub(self, other: Duration) -> (r: Instant) {
        let difference = self.checked_sub(other).expect(
            "underflow while subtracting Duration from Instant",
        );
        proof {
            use_type_invariant(&self);
            use_type_invariant(&difference);
            lemma_duration_view_range(self.ticks);
            lemma_duration_view_range(other);
            lemma_duration_from_nanos(self@ - other@);
            lemma_duration_view_injective(difference.ticks, duration_from_nanos(self@ - other@));
        }
        difference
    }
}

impl vstd::std_specs::ops::SubSpecImpl<Duration> for Instant {
    open spec fn obeys_sub_spec() -> bool {
        true
    }

    open spec fn sub_req(self, other: Duration) -> bool {
        self@ >= other@
    }

    open spec fn sub_spec(self, other: Duration) -> Instant {
        instant_from_nanos(self@ - other@)
    }
}

impl core::ops::Sub<Instant> for Instant {
    type Output = Duration;

    /// Operator form of [`Instant::duration_since`]: the saturating
    /// difference between two instants.
    fn sub(self, other: Instant) -> (r: Duration) {
        let difference = self.duration_since(other);
        proof {
            use_type_invariant(&self);
            use_type_invariant(&difference);
            lemma_duration_view_range(self.ticks);
            lemma_duration_view_range(other.ticks);
            let gap: int = if self@ >= other@ {
                self@ - other@
            } else {
                0
            };
            lemma_duration_from_nanos(gap);
            lemma_duration_view_injective(difference, duration_from_nanos(gap));
        }
        difference
    }
}

impl vstd::std_specs::ops::SubSpecImpl<Instant> for Instant {
    open spec fn obeys_sub_spec() -> bool {
        true
    }

    open spec fn sub_req(self, other: Instant) -> bool {
        true
    }

    open spec fn sub_spec(self, other: Instant) -> Duration {
        duration_from_nanos(
            if self@ >= other@ {
                self@ - other@
            } else {
                0
            },
        )
    }
}

/// Two instants with the same tick count are the same instant: the
/// mathematical view determines the value.
pub proof fn lemma_instant_view_injective(a: Instant, b: Instant)
    requires
        a.wf(),
        b.wf(),
        a@ == b@,
    ensures
        a == b,
{
    lemma_duration_view_injective(a.ticks, b.ticks);
}

/// Checked-duration duality: the exact difference between two instants is
/// present exactly when `a` is not earlier than `b`, and when present it
/// equals the saturating difference. `checked` stands for any result of
/// `a.checked_duration_since(b)` and `saturating` for any result of
/// `a.duration_since(b)`, as their contracts describe them.
pub proof fn lemma_checked_duration_since_duality(
    a: Instant,
    b: Instant,
    checked: Option<Duration>,
    saturating: Duration,
)
    requires
        saturating.wf(),
        checked matches Some(d) ==> d.wf(),
        checked is Some <==> a@ >= b@,
        checked matches Some(d) ==> d@ == a@ - b@,
        saturating@ == if a@ >= b@ {
            a@ - b@
        } else {
            0
        },
    ensures
        checked is Some <==> a@ >= b@,
        checked matches Some(d) ==> d == saturating,
{
    match checked {
        Some(d) => lemma_duration_view_injective(d, saturating),
        None => (),
    }
}

/// Operator consistency: away from the representable boundary, `a + d`
/// returns exactly the instant that `checked_add` wraps in `Some`. `checked`
/// stands for any result of `a.checked_add(d)`, as its contract describes it;
/// `a.add_spec(d)` is what `a + d` returns, by the contract of `+`.
pub proof fn lemma_add_operator_matches_checked(a: Instant, d: Duration, checked: Option<Instant>)
    requires
        a.wf(),
        d.wf(),
        a@ + d@ <= max_duration_nanos(),
        checked is Some <==> a@ + d@ <= max_duration_nanos(),
        checked matches Some(i) ==> i.wf() && i@ == a@ + d@,
    ensures
        checked == Some(a.add_spec(d)),
{
    lemma_duration_view_range(a.ticks);
    lemma_duration_view_range(d);
    lemma_instant_from_nanos(a@ + d@);
    lemma_instant_view_injective(checked.unwrap(), a.add_spec(d));
}

/// Operator consistency: away from the representable boundary, `a - d`
/// returns exactly the instant that `checked_sub` wraps in `Some`. `checked`
/// stands for any result of `a.checked_sub(d)`, as its contract describes it;
/// `a.sub_spec(d)` is what `a - d` returns, by the contract of `-`.
pub proof fn lemma_sub_operator_matches_checked(a: Instant, d: Duration, checked: Option<Instant>)
    requires
        a.wf(),
        d.wf(),
        a@ >= d@,
        checked is Some <==> a@ >= d@,
        checked matches Some(i) ==> i.wf() && i@ == a@ - d@,
    ensures
        checked == Some(a.sub_spec(d)),
{
    lemma_duration_view_range(a.ticks);
    lemma_duration_view_range(d);
    lemma_instant_from_nanos(a@ - d@);
    lemma_instant_view_injective(checked.unwrap(), a.sub_spec(d));
}

/// Operator consistency: `a - b` on two instants returns exactly the
/// saturating difference that `duration_since` returns. `since` stands for
/// any result of `a.duration_since(b)`, as its contract describes it;
/// `a.sub_spec(b)` is what `a - b` returns, by the contract of `-`.
pub proof fn lemma_sub_instants_matches_duration_since(a: Instant, b: Instant, since: Duration)
    requires
        a.wf(),
        b.wf(),
        since.wf(),
        since@ == if a@ >= b@ {
            a@ - b@
        } else {
            0
        },
    ensures
        since == a.sub_spec(b),
{
    lemma_duration_view_range(a.ticks);
    lemma_duration_view_range(b.ticks);
    let gap: int = if a@ >= b@ {
        a@ - b@
    } else {
        0
    };
    lemma_duration_from_nanos(gap);
    lemma_duration_view_injective(since, duration_from_nanos(gap));
}

/// Round trip: wrapping a duration in an instant and reading the ticks back
/// returns the same duration. `i` stands for any result of
/// `Instant::from_ticks(d)` and `back` for any result of `i.to_ticks()`, as
/// their contracts describe them.
pub proof fn lemma_ticks_round_trip(d: Duration, i: Instant, back: Duration)
    requires
        d.wf(),
        back.wf(),
        i@ == d@,
        back@ == i@,
    ensures
        back == d,
{
    lemma_duration_view_injective(back, d);
}

} // verus!
