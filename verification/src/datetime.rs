//! Points in time as the records name them.

use vstd::prelude::*;

verus! {

/// The seconds since the epoch of the point in time that a text names in
/// the notation of RFC 3339, `None` where it names none.
pub uninterp spec fn rfc3339_timestamp(text: Seq<char>) -> Option<i64>;

/// `chrono::DateTime::parse_from_rfc3339`, with the `timestamp` of the
/// result. The contract names the result.
#[verifier::external_body]
fn parse_rfc3339(text: &str) -> (seconds: Option<i64>)
    ensures
        seconds == rfc3339_timestamp(text@),
{
    match chrono::DateTime::parse_from_rfc3339(text) {
        Ok(time) => Some(time.timestamp()),
        Err(_) => None,
    }
}

/// The seconds since the epoch of the point in time that a text names in
/// the notation of RFC 3339.
pub fn timestamp(text: &str) -> (seconds: Option<i64>)
    ensures
        seconds == rfc3339_timestamp(text@),
{
    parse_rfc3339(text)
}

/// The seconds since the epoch of a point in time that a record may leave
/// out: `Some(None)` where it is left out, `None` where the text names no
/// point in time.
pub fn optional_timestamp(text: Option<&str>) -> (seconds: Option<Option<i64>>)
    ensures
        seconds == match text {
            Some(text) => match rfc3339_timestamp(text@) {
                Some(seconds) => Some(Some(seconds)),
                None => None,
            },
            None => Some(None::<i64>),
        },
{
    match text {
        Some(text) => match parse_rfc3339(text) {
            Some(seconds) => Some(Some(seconds)),
            None => None,
        },
        None => Some(None),
    }
}

} // verus!
