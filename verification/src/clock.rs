//! What the library takes from clocks: a wall-clock reading at the start of
//! a request, a monotonic stopwatch for latencies, and the RFC 3339 text of
//! a reading. Nothing here is proved; each contract says what the outside
//! function is taken to do.

use std::time::{Duration, Instant};
use vstd::prelude::*;

verus! {

/// `std::time::Instant`: a reading of the monotonic clock. Its inside is
/// never looked at.
#[verifier::external_type_specification]
#[verifier::external_body]
pub struct ExInstant(Instant);

/// The text that `chrono::DateTime::<Utc>::to_rfc3339` gives for the instant
/// `millis` milliseconds after 1970-01-01T00:00:00Z, and `None` where
/// `chrono::DateTime::from_timestamp_millis` finds `millis` out of its range.
pub uninterp spec fn rfc3339_text(millis: i64) -> Option<Seq<char>>;

/// `Instant::now` of the standard library. Nothing is claimed of the
/// reading.
#[verifier::external_body]
pub(crate) fn instant_now() -> (now: Instant) {
    Instant::now()
}

/// `Instant::elapsed` of the standard library: the time since `start` on the
/// monotonic clock. Nothing is claimed of its length.
#[verifier::external_body]
pub(crate) fn instant_elapsed(start: &Instant) -> (elapsed: Duration) {
    start.elapsed()
}

/// `Duration::as_micros` of the standard library: the whole microseconds in
/// `elapsed`. Nothing is claimed of the number.
#[verifier::external_body]
pub(crate) fn duration_micros(elapsed: &Duration) -> (micros: u128) {
    elapsed.as_micros()
}

/// `chrono::Utc::now`, read through `DateTime::timestamp_millis`: the wall
/// clock in milliseconds since the Unix epoch. Nothing is claimed of the
/// reading. chrono panics where the system clock reads before 1970.
#[verifier::external_body]
pub(crate) fn utc_now_millis() -> (millis: i64) {
    chrono::Utc::now().timestamp_millis()
}

/// `chrono::DateTime::from_timestamp_millis` followed by
/// `DateTime::to_rfc3339`: the RFC 3339 text of a reading in UTC, or `None`
/// where chrono cannot represent the reading. The text depends on `millis`
/// alone.
#[verifier::external_body]
pub(crate) fn rfc3339(millis: i64) -> (text: Option<String>)
    ensures
        text is Some <==> rfc3339_text(millis) is Some,
        text matches Some(s) ==> rfc3339_text(millis) == Some(s@),
{
    match chrono::DateTime::from_timestamp_millis(millis) {
        Some(at) => Some(at.to_rfc3339()),
        None => None,
    }
}

} // verus!
