//! The wall clock.

use vstd::prelude::*;

verus! {

/// Seconds since the Unix epoch, read from `chrono::Utc::now().timestamp()`.
/// The clock may stand anywhere from the epoch on: where the system time
/// lies before the epoch, `Utc::now` panics and no reading comes back.
#[verifier::external_body]
pub(crate) fn unix_seconds() -> (now: i64)
    ensures
        0 <= now,
{
    chrono::Utc::now().timestamp()
}

/// Microseconds since the Unix epoch, read from
/// `chrono::Utc::now().timestamp_micros()`. The clock may stand anywhere
/// from the epoch on: where the system time lies before the epoch,
/// `Utc::now` panics and no reading comes back.
#[verifier::external_body]
pub(crate) fn unix_micros() -> (now: i64)
    ensures
        0 <= now,
{
    chrono::Utc::now().timestamp_micros()
}

} // verus!
