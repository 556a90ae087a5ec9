use vstd::prelude::*;

verus! {

/// The largest total-nanosecond count a [`Duration`] can hold.
pub open spec fn max_duration_nanos() -> int {
    u64::MAX * 1_000_000_000 + 999_999_999
}

/// A non-negative span of time with nanosecond resolution.
///
/// A duration is a count of whole seconds together with a sub-second
/// nanosecond fraction. Its mathematical value, written `d@`, is the total
/// number of nanoseconds it spans.
#[derive(Debug, Clone, Copy, PartialEq, Eq, PartialOrd, Ord, Hash, Structural)]
pub struct Duration {
    secs: u64,
    nanos: u32,
}

impl View for Duration {
    type V = int;

    closed spec fn view(&self) -> int {
        self.secs * 1_000_000_000 + self.nanos
    }
}

impl Duration {
    /// Well-formedness: the sub-second part never reaches a whole second.
    /// Every `Duration` that exec code can build satisfies it.
    #[verifier::type_invariant]
    pub closed spec fn wf(self) -> bool {
        self.nanos < 1_000_000_000
    }

    /// The zero-length duration.
    pub fn zero() -> (r: Duration)
        ensures
            r@ == 0,
    {
        Duration { secs: 0, nanos: 0 }
    }

    /// The longest representable duration.
    pub fn max_value() -> (r: Duration)
        ensures
            r@ == max_duration_nanos(),
    {
        Duration { secs: u64::MAX, nanos: 999_999_999 }
    }

    /// Builds a duration from whole seconds and a sub-second nanosecond part.
    pub fn new(secs: u64, nanos: u32) -> (r: Duration)
        requires
            nanos < 1_000_000_000,
        ensures
            r@ == secs * 1_000_000_000 + nanos,
    {
        Duration { secs, nanos }
    }

    /// Builds a duration of `secs` whole seconds.
    pub fn from_secs(secs: u64) -> (r: Duration)
        ensures
            r@ == secs * 1_000_000_000,
    {
        Duration { secs, nanos: 0 }
    }

    /// Builds a duration of `millis` milliseconds.
    pub fn from_millis(millis: u64) -> (r: Duration)
        ensures
            r@ == millis * 1_000_000,
    {
        let secs: u64 = millis / 1000;
        let nanos: u32 = ((millis % 1000) as u32) * 1_000_000;
        Duration { secs, nanos }
    }

    /// Builds a duration of `nanos` nanoseconds.
    pub fn from_nanos(nanos: u64) -> (r: Duration)
        ensures
            r@ == nanos,
    {
        let secs: u64 = nanos / 1_000_000_000;
        let subsec: u32 = (nanos % 1_000_000_000) as u32;
        Duration { secs, nanos: subsec }
    }

    /// Returns the whole-second part of this duration.
    pub fn as_secs(self) -> (r: u64)
        ensures
            r == self@ / 1_000_000_000,
    {
        proof {
            use_type_invariant(&self);
            vstd::arithmetic::div_mod::lemma_fundamental_div_mod_converse(
                self@,
                1_000_000_000,
                self.secs as int,
                self.nanos as int,
            );
        }
        self.secs
    }

    /// Returns the sub-second part of this duration, in nanoseconds.
    pub fn subsec_nanos(self) -> (r: u32)
        ensures
            r == self@ % 1_000_000_000,
    {
        proof {
            use_type_invariant(&self);
            vstd::arithmetic::div_mod::lemma_fundamental_div_mod_converse(
                self@,
                1_000_000_000,
                self.secs as int,
                self.nanos as int,
            );
        }
        self.nanos
    }

    /// Returns whether this duration is zero.
    pub fn is_zero(self) -> (r: bool)
        ensures
            r <==> self@ == 0,
    {
        self.secs == 0 && self.nanos == 0
    }

    /// Adds two durations, returning `None` exactly when the sum would exceed
    /// the representable maximum.
    pub fn checked_add(self, rhs: Duration) -> (r: Option<Duration>)
        ensures
            r is Some <==> self@ + rhs@ <= max_duration_nanos(),
            r matches Some(d) ==> d@ == self@ + rhs@,
    {
        proof {
            use_type_invariant(&self);
            use_type_invariant(&rhs);
        }
        let nanos_sum: u32 = self.nanos + rhs.nanos;
        match self.secs.checked_add(rhs.secs) {
            Some(secs_sum) => {
                if nanos_sum >= 1_000_000_000 {
                    match secs_sum.checked_add(1) {
                        Some(secs_carried) => Some(
                            Duration { secs: secs_carried, nanos: nanos_sum - 1_000_000_000 },
                        ),
                        None => None,
                    }
                } else {
                    Some(Duration { secs: secs_sum, nanos: nanos_sum })
                }
            },
            None => None,
        }
    }

    /// Subtracts `rhs` from this duration, returning `None` exactly when `rhs`
    /// is longer than `self`.
    pub fn checked_sub(self, rhs: Duration) -> (r: Option<Duration>)
        ensures
            r is Some <==> self@ >= rhs@,
            r matches Some(d) ==> d@ == self@ - rhs@,
    {
        proof {
            use_type_invariant(&self);
            use_type_invariant(&rhs);
        }
        if self.secs >= rhs.secs {
            if self.nanos >= rhs.nanos {
                Some(Duration { secs: self.secs - rhs.secs, nanos: self.nanos - rhs.nanos })
            } else if self.secs > rhs.secs {
                Some(
                    Duration {
                        secs: self.secs - rhs.secs - 1,
                        nanos: self.nanos + 1_000_000_000 - rhs.nanos,
                    },
                )
            } else {
                None
            }
        } else {
            None
        }
    }

    /// Subtracts `rhs` from this duration, clamping at zero instead of
    /// underflowing.
    pub fn saturating_sub(self, rhs: Duration) -> (r: Duration)
        ensures
            r@ == if self@ >= rhs@ {
                self@ - rhs@
            } else {
                0
            },
    {
        match self.checked_sub(rhs) {
            Some(d) => d,
            None => Duration { secs: 0, nanos: 0 },
        }
    }
}

/// The duration whose mathematical value is `n` nanoseconds, for `n` within
/// the representable range.
pub closed spec fn duration_from_nanos(n: int) -> Duration {
    Duration { secs: (n / 1_000_000_000) as u64, nanos: (n % 1_000_000_000) as u32 }
}

/// Within the representable range, [`duration_from_nanos`] is well-formed and
/// inverts the view.
pub proof fn lemma_duration_from_nanos(n: int)
    requires
        0 <= n <= max_duration_nanos(),
    ensures
        duration_from_nanos(n).wf(),
        duration_from_nanos(n)@ == n,
{
    vstd::arithmetic::div_mod::lemma_fundamental_div_mod(n, 1_000_000_000);
}

impl core::ops::Add<Duration> for Duration {
    type Output = Duration;

    /// Ergonomic form of [`Duration::checked_add`] for call sites where
    /// overflow indicates a programming error; the precondition excludes it.
    fn add(self, rhs: Duration) -> (r: Duration) {
        let sum = self.checked_add(rhs).expect("overflow when adding durations");
        proof {
            use_type_invariant(&sum);
            lemma_duration_from_nanos(self@ + rhs@);
            lemma_duration_view_injective(sum, duration_from_nanos(self@ + rhs@));
        }
        sum
    }
}

impl vstd::std_specs::ops::AddSpecImpl<Duration> for Duration {
    open spec fn obeys_add_spec() -> bool {
        true
    }

    open spec fn add_req(self, rhs: Duration) -> bool {
        self@ + rhs@ <= max_duration_nanos()
    }

    open spec fn add_spec(self, rhs: Duration) -> Duration {
        duration_from_nanos(self@ + rhs@)
    }
}

/// The view of a duration is never negative, and for a well-formed duration
/// it never exceeds the representable maximum.
pub proof fn lemma_duration_view_range(d: Duration)
    ensures
        0 <= d@,
        d.wf() ==> d@ <= max_duration_nanos(),
{
}

/// Two durations that span the same number of nanoseconds are the same
/// duration: the mathematical view determines the value.
pub proof fn lemma_duration_view_injective(a: Duration, b: Duration)
    requires
        a.wf(),
        b.wf(),
        a@ == b@,
    ensures
        a == b,
{
}

} // verus!
