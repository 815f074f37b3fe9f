//! Timestamp parsing.
//!
//! The envelope timestamp arrives as RFC 3339 text and the record builder
//! needs its instant truncated to milliseconds since the Unix epoch.  The
//! calendar arithmetic itself is done by the chrono crate; the library only
//! names its result.

use vstd::prelude::*;

verus! {

/// The milliseconds since the Unix epoch of an RFC 3339 instant, or
/// nothing when the text is not one.  The result depends on the text alone.
pub uninterp spec fn rfc3339_millis_of(s: Seq<char>) -> Option<i64>;

/// Relies on chrono's `DateTime::parse_from_rfc3339` and
/// `DateTime::timestamp_millis`: text that parses as an RFC 3339 instant
/// yields that instant's millisecond count since the Unix epoch (the count
/// names one instant, so it does not depend on the UTC offset the text was
/// written in), and text that does not parse yields nothing.
#[verifier::external_body]
pub(crate) fn parse_rfc3339_millis(s: &str) -> (r: Option<i64>)
    ensures
        r == rfc3339_millis_of(s@),
{
    match chrono::DateTime::parse_from_rfc3339(s) {
        Ok(dt) => Some(dt.timestamp_millis()),
        Err(_) => None,
    }
}

} // verus!
