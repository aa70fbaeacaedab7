//! Timestamp rendering, backed by chrono.

use vstd::prelude::*;

verus! {

/// Whether chrono can represent the instant `ms` milliseconds from the
/// Unix epoch.
pub uninterp spec fn ms_in_datetime_range(ms: int) -> bool;

/// The RFC 3339 rendering of the UTC instant `ms` milliseconds from the
/// Unix epoch.
pub uninterp spec fn rfc3339_of(ms: int) -> Seq<char>;

/// Relies on chrono's DateTime::<Utc>::from_timestamp_millis, which is None
/// exactly on an out-of-range number of milliseconds, and on to_rfc3339:
/// the text depends on the millisecond value alone.
#[verifier::external_body]
pub(crate) fn format_timestamp_ms(ms: i64) -> (r: Option<String>)
    ensures
        (r is Some) == ms_in_datetime_range(ms as int),
        r matches Some(s) ==> s@ == rfc3339_of(ms as int),
{
    match chrono::DateTime::<chrono::Utc>::from_timestamp_millis(ms) {
        Some(d) => Some(d.to_rfc3339()),
        None => None,
    }
}

} // verus!
