//! The wall clock, read through `chrono`.

use vstd::prelude::*;

verus! {

/// `chrono::Utc::now().timestamp_millis()`: milliseconds since the Unix epoch
/// on the machine's clock. It depends on the clock, so no contract states its
/// value; callers that need a fixed time take it as an argument.
#[verifier::external_body]
pub(crate) fn now_millis() -> i64 {
    chrono::Utc::now().timestamp_millis()
}

/// The instant that `chrono::DateTime::parse_from_rfc3339` reads from `s`, as
/// `(timestamp(), timestamp_subsec_nanos())` (whole non-leap seconds since the
/// Unix epoch in UTC, then nanoseconds within the second), or `None` where it
/// refuses `s`. The accepted shapes are not restated.
pub uninterp spec fn rfc3339_instant(s: Seq<char>) -> Option<(i64, u32)>;

/// `chrono::DateTime::parse_from_rfc3339(s)`, taken as seconds and nanoseconds
/// of the instant it names; its result is named by [`rfc3339_instant`].
#[verifier::external_body]
pub(crate) fn parse_rfc3339_instant(s: &str) -> (r: Option<(i64, u32)>)
    ensures
        r == rfc3339_instant(s@),
{
    match chrono::DateTime::parse_from_rfc3339(s) {
        Ok(t) => Some((t.timestamp(), t.timestamp_subsec_nanos())),
        Err(_) => None,
    }
}

/// `chrono::Utc::now()` as `(timestamp(), timestamp_subsec_nanos())`. It
/// depends on the clock, so its value is not stated, except that it is not
/// before 1970: `Utc::now` panics on a machine clock earlier than the Unix
/// epoch instead of returning.
#[verifier::external_body]
pub(crate) fn utc_now() -> (r: (i64, u32))
    ensures
        r.0 >= 0,
{
    let t = chrono::Utc::now();
    (t.timestamp(), t.timestamp_subsec_nanos())
}

} // verus!
