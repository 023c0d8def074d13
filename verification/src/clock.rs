//! The wall clock, read as whole seconds since the Unix epoch.

use vstd::prelude::*;

verus! {

/// Exclusive upper bound of every timestamp the clock can report.
pub const CLOCK_LIMIT: i64 = 0x1_0000_0000_0000;

/// Reads the current time from `chrono::Utc::now` and returns its
/// `timestamp()`: whole seconds since 1970-01-01T00:00:00Z.
///
/// The contract claims only a range. `Utc::now` measures the system time from
/// the epoch as an unsigned duration, so the result is never negative, and it
/// builds its date from a day count that fits in 32 bits, which keeps the
/// result below `CLOCK_LIMIT`. Nothing is said about which instant is read.
/// `Utc::now` panics when the system clock is set before the epoch.
#[verifier::external_body]
pub(crate) fn unix_now() -> (now: i64)
    ensures
        0 <= now < CLOCK_LIMIT,
{
    chrono::Utc::now().timestamp()
}

} // verus!
