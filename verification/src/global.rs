use vstd::prelude::*;

use crate::instant::Instant;
use crate::system::SystemTime;

verus! {

/// Source of wall-clock timestamps.
///
/// A source may report per-call absence with `None`, for clocks that are only
/// intermittently readable. Nothing further is promised of a reading: a wall
/// clock may move backward between calls.
pub trait WallClock {
    /// Returns the current wall-clock time, or `None` if not available.
    fn system_time(&self) -> Option<SystemTime>;
}

/// Source of monotonic instants.
///
/// A source may report per-call absence with `None`. Readings are meaningful
/// only relative to other readings from the same source.
pub trait MonotonicClock {
    /// Returns the current monotonic instant, or `None` if not available.
    fn instant(&self) -> Option<Instant>;
}

/// A full time context that can provide wall-clock and monotonic time and is
/// safe to share between threads.
pub trait TimeContext: WallClock + MonotonicClock + Send + Sync {

}

impl<T: WallClock + MonotonicClock + Send + Sync> TimeContext for T {

}

/// Error returned when attempting to set the registered time context more
/// than once.
#[derive(Debug, Clone, Copy, PartialEq, Eq, Structural)]
pub struct GlobalTimeContextAlreadySet;

/// A set-once slot for a time context.
///
/// The slot begins empty, accepts exactly one context, and never gives it up:
/// the first successful [`set`](TimeContextCell::set) is permanent, and every
/// later attempt fails without altering the stored value. Its mathematical
/// value, written `cell@`, is the stored context, if any. A process-wide
/// registration keeps one such slot in a static and shares it between
/// threads.
pub struct TimeContextCell<C> {
    value: Option<C>,
}

impl<C> View for TimeContextCell<C> {
    type V = Option<C>;

    closed spec fn view(&self) -> Option<C> {
        self.value
    }
}

impl<C> TimeContextCell<C> {
    /// Creates an empty slot.
    pub fn new() -> (r: Self)
        ensures
            r@ is None,
    {
        TimeContextCell { value: None }
    }

    /// Installs `context`, if no context was installed before.
    ///
    /// The first call on an empty slot succeeds; every later call fails with
    /// [`GlobalTimeContextAlreadySet`] and leaves the stored context exactly
    /// as it was.
    pub fn set(&mut self, context: C) -> (r: Result<(), GlobalTimeContextAlreadySet>)
        ensures
            r is Ok <==> old(self)@ is None,
            old(self)@ is None ==> final(self)@ == Some(context),
            old(self)@ is Some ==> final(self)@ == old(self)@,
            r matches Err(e) ==> e == GlobalTimeContextAlreadySet,
    {
        if self.value.is_none() {
            self.value = Some(context);
            Ok(())
        } else {
            Err(GlobalTimeContextAlreadySet)
        }
    }

    /// Returns the installed context, or `None` if the slot is still empty.
    pub fn get(&self) -> (r: Option<&C>)
        ensures
            r is Some <==> self@ is Some,
            r matches Some(c) ==> self@ == Some(*c),
    {
        self.value.as_ref()
    }
}

/// Decides which clock reading a "now" query uses: a reading from the
/// registered context always wins; the platform's own reading stands in only
/// when the context yielded none; and `None` is the no-clock-available
/// outcome, which a caller escalates as a fatal configuration error.
pub fn resolve_now_reading<T>(registered: Option<T>, fallback: Option<T>) -> (r: Option<T>)
    ensures
        registered is Some ==> r == registered,
        registered is None ==> r == fallback,
{
    match registered {
        Some(reading) => Some(reading),
        None => fallback,
    }
}

/// Registration is set-once: on an empty slot the first `set` succeeds and
/// stores its context; a second `set` then fails with
/// `GlobalTimeContextAlreadySet` and what `get` would return is unchanged.
/// `r1` and `s1` stand for the result and slot contents after a first call
/// `set(c1)` on an empty slot, `r2` and `s2` for those after a second call
/// `set(c2)`, as the contract of `set` describes them.
pub proof fn lemma_registration_set_once<C>(
    s0: Option<C>,
    c1: C,
    r1: Result<(), GlobalTimeContextAlreadySet>,
    s1: Option<C>,
    r2: Result<(), GlobalTimeContextAlreadySet>,
    s2: Option<C>,
)
    requires
        s0 is None,
        r1 is Ok <==> s0 is None,
        s0 is None ==> s1 == Some(c1),
        r2 is Ok <==> s1 is None,
        s1 is Some ==> s2 == s1,
        r2 matches Err(e) ==> e == GlobalTimeContextAlreadySet,
    ensures
        r1 is Ok,
        s1 == Some(c1),
        r2 == Result::<(), GlobalTimeContextAlreadySet>::Err(GlobalTimeContextAlreadySet),
        s2 == Some(c1),
{
}

} // verus!
