use vstd::prelude::*;

verus! {

/// Number of seconds in one day, as chrono counts them.
pub const SECONDS_PER_DAY: i64 = 86_400;

/// Smallest whole number of seconds that a chrono `TimeDelta` can hold.
pub const MIN_DELTA_SECONDS: i64 = -9_223_372_036_854_775;

/// Largest whole number of seconds that a chrono `TimeDelta` can hold.
pub const MAX_DELTA_SECONDS: i64 = 9_223_372_036_854_775;

/// Calls `chrono::Duration::days` and reads the length back with `num_seconds`.
/// The contract claims what chrono's source shows: a delta of `days` whole days
/// is `days * 86_400` seconds, and `days` panics unless that product fits in the
/// range of a `TimeDelta`, which the `requires` leaves out.
#[verifier::external_body]
pub(crate) fn days_in_seconds(days: i64) -> (secs: i64)
    requires
        MIN_DELTA_SECONDS <= days * SECONDS_PER_DAY <= MAX_DELTA_SECONDS,
    ensures
        secs == days * SECONDS_PER_DAY,
{
    chrono::Duration::days(days).num_seconds()
}

} // verus!

verus! {

/// A point in time: whole seconds since the Unix epoch and the nanoseconds
/// past that second.
#[derive(PartialEq, Eq, Structural, Clone, Copy, Debug)]
pub struct Instant {
    pub seconds: i64,
    pub nanos: u32,
}

} // verus!
