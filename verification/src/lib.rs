//! A portable abstraction over monotonic elapsed-time instants and wall-clock
//! timestamps.
//!
//! The value types carry a nanosecond-precision [`Duration`] and never panic on
//! ordinary arithmetic: overflow and underflow are explicit in the checked
//! operations. A process can plug in its own clock sources through the
//! [`WallClock`] and [`MonotonicClock`] capability traits, registered once in
//! a set-once [`TimeContextCell`].

mod duration;
mod global;
mod instant;
mod system;

pub use duration::duration_from_nanos;
pub use duration::lemma_duration_from_nanos;
pub use duration::lemma_duration_view_injective;
pub use duration::lemma_duration_view_range;
pub use duration::max_duration_nanos;
pub use duration::Duration;
pub use global::lemma_registration_set_once;
pub use global::resolve_now_reading;
pub use global::GlobalTimeContextAlreadySet;
pub use global::MonotonicClock;
pub use global::TimeContext;
pub use global::TimeContextCell;
pub use global::WallClock;
pub use instant::instant_from_nanos;
pub use instant::lemma_add_operator_matches_checked;
pub use instant::lemma_checked_duration_since_duality;
pub use instant::lemma_instant_from_nanos;
pub use instant::lemma_instant_view_injective;
pub use instant::lemma_sub_instants_matches_duration_since;
pub use instant::lemma_sub_operator_matches_checked;
pub use instant::lemma_ticks_round_trip;
pub use instant::Instant;
pub use system::lemma_duration_since_duality;
pub use system::lemma_unix_duration_round_trip;
pub use system::SystemTime;
