//! Timestamps as milliseconds since the Unix epoch. Parsing RFC 3339 text
//! and reading the local clock are delegated to the `chrono` crate.
use vstd::prelude::*;

verus! {

/// What `chrono`'s RFC 3339 parser yields for a given string, as epoch
/// milliseconds: `None` where the string is not a valid RFC 3339 datetime.
/// The result depends on the characters alone.
pub uninterp spec fn rfc3339_millis_of(s: Seq<char>) -> Option<i64>;

/// Relies on `chrono::DateTime::parse_from_rfc3339` and
/// `chrono::DateTime::timestamp_millis`: parses an RFC 3339 datetime and
/// reduces it to epoch milliseconds, a pure function of the input text.
#[verifier::external_body]
pub(crate) fn parse_rfc3339_millis(s: &str) -> (r: Option<i64>)
    ensures
        r == rfc3339_millis_of(s@),
{
    match chrono::DateTime::parse_from_rfc3339(s) {
        Ok(t) => Some(t.timestamp_millis()),
        Err(_) => None,
    }
}

/// Relies on `chrono::Utc::now`: reads the local clock. Nothing is promised
/// of the value; callers state what holds for every reading.
#[verifier::external_body]
pub(crate) fn now_millis() -> i64 {
    chrono::Utc::now().timestamp_millis()
}

} // verus!
