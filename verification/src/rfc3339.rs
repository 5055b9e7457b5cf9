use vstd::prelude::*;

verus! {

/// The instant an RFC 3339 timestamp string denotes, in non-leap seconds
/// since the Unix epoch, or `None` when the string is not a valid RFC 3339
/// timestamp. Which instant (if any) a string denotes is a function of its
/// characters alone.
pub uninterp spec fn rfc3339_epoch_seconds(s: Seq<char>) -> Option<i64>;

/// Relies on `chrono::DateTime::parse_from_rfc3339`, which parses an
/// RFC 3339 timestamp or reports a parse error, and on
/// `chrono::DateTime::timestamp`, which converts the parsed instant to
/// non-leap seconds since the Unix epoch; both depend on the input
/// characters alone.
#[verifier::external_body]
pub(crate) fn parse_rfc3339_epoch(s: &str) -> (r: Option<i64>)
    ensures
        r == rfc3339_epoch_seconds(s@),
{
    match chrono::DateTime::parse_from_rfc3339(s) {
        Ok(dt) => Some(dt.timestamp()),
        Err(_) => None,
    }
}

} // verus!
