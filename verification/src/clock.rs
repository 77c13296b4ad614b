//! Wall-clock access and timestamp formatting.
//!
//! Timestamps are carried as microseconds since the UNIX epoch (`i64`).

use vstd::prelude::*;

verus! {

/// What `chrono` renders as RFC 3339 for a timestamp in microseconds, or
/// `None` where `DateTime::from_timestamp_micros` has no value for it.
pub uninterp spec fn rfc3339_of(micros: i64) -> Option<Seq<char>>;

/// Reads the current UTC time through `chrono::Utc::now` and returns it in
/// microseconds since the epoch. Nothing is promised of the value: it
/// depends on the clock.
#[verifier::external_body]
pub(crate) fn now_micros() -> (r: i64) {
    chrono::Utc::now().timestamp_micros()
}

/// Formats a timestamp through `chrono::DateTime::from_timestamp_micros`
/// followed by `to_rfc3339`; the result is the named `rfc3339_of`.
#[verifier::external_body]
pub(crate) fn format_rfc3339(micros: i64) -> (r: Option<String>)
    ensures
        match r {
            Some(s) => rfc3339_of(micros) == Some(s@),
            None => rfc3339_of(micros) is None,
        },
{
    chrono::DateTime::from_timestamp_micros(micros).map(|d| d.to_rfc3339())
}

/// The RFC 3339 text of a timestamp, or the empty string where chrono has
/// no date for it.
pub open spec fn rfc3339_text(micros: i64) -> Seq<char> {
    match rfc3339_of(micros) {
        Some(s) => s,
        None => Seq::empty(),
    }
}

/// Renders a timestamp as RFC 3339 text (empty where chrono has no date).
pub fn to_rfc3339(micros: i64) -> (r: String)
    ensures
        r@ == rfc3339_text(micros),
{
    match format_rfc3339(micros) {
        Some(s) => s,
        None => String::new(),
    }
}

} // verus!
