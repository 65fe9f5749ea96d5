//! Timestamps.  A publication date is held as seconds since the Unix epoch;
//! parsing and the clock come from the chrono crate behind trusted items.

use vstd::prelude::*;

verus! {

/// What chrono's RFC 3339 parsing yields for a string: `None` when the string
/// is not a valid RFC 3339 timestamp, otherwise the Unix seconds it denotes.
pub uninterp spec fn rfc3339_secs_of(s: Seq<char>) -> Option<int>;

/// Relies on chrono's DateTime::parse_from_rfc3339 and DateTime::timestamp:
/// both are functions of the string alone.
#[verifier::external_body]
pub fn parse_rfc3339(s: &str) -> (r: Option<i64>)
    ensures
        match r {
            Some(t) => rfc3339_secs_of(s@) == Some(t as int),
            None => rfc3339_secs_of(s@) is None,
        },
{
    match chrono::DateTime::parse_from_rfc3339(s) {
        Ok(dt) => Some(dt.timestamp()),
        Err(_) => None,
    }
}

/// The current time as an RFC 3339 string.
///
/// Relies on chrono's Utc::now and to_rfc3339.  Nothing is promised of the
/// clock's reading.
#[verifier::external_body]
pub fn now() -> String {
    chrono::Utc::now().to_rfc3339()
}

/// The current time in Unix seconds.
///
/// Relies on chrono's Utc::now and DateTime::timestamp.  Nothing is promised
/// of the clock's reading.
#[verifier::external_body]
pub fn now_secs() -> i64 {
    chrono::Utc::now().timestamp()
}

} // verus!
