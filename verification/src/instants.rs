//! Instants as milliseconds since the Unix epoch, and the text chrono gives
//! for them.

use vstd::prelude::*;

verus! {

/// The first millisecond chrono represents: the start of year -262143.
pub const EARLIEST_INSTANT_MS: i64 = -8334601315200000;

/// The last millisecond chrono represents: the end of year 262142.
pub const LATEST_INSTANT_MS: i64 = 8210266876799999;

/// An instant that a chrono `DateTime<Utc>` can hold.
pub open spec fn representable_instant(ms: i64) -> bool {
    EARLIEST_INSTANT_MS <= ms <= LATEST_INSTANT_MS
}

/// The text chrono's `Display` gives for the UTC instant `ms`, such as
/// `2026-01-01 00:00:00 UTC`.
pub uninterp spec fn utc_instant_text(ms: i64) -> Seq<char>;

/// Formats the instant with `chrono::DateTime::<Utc>::from_timestamp_millis`
/// and `Display`; the contract claims that the text is the name above
/// applied to the instant, which chrono's source derives from the instant
/// alone. Within the representable range chrono always gives an instant.
#[verifier::external_body]
pub(crate) fn instant_text(ms: i64) -> (r: String)
    requires
        representable_instant(ms),
    ensures
        r@ == utc_instant_text(ms),
{
    chrono::DateTime::<chrono::Utc>::from_timestamp_millis(ms).map(|t| t.to_string()).unwrap_or_default()
}

/// The RFC 3339 text chrono gives for the UTC instant `ms` at whole
/// seconds with a `Z` suffix, such as `2026-07-19T12:00:00Z`.
pub uninterp spec fn utc_rfc3339_text(ms: i64) -> Seq<char>;

/// Formats the instant with `chrono::DateTime::<Utc>::from_timestamp_millis`
/// and `to_rfc3339_opts(SecondsFormat::Secs, true)`; the contract claims
/// that the text is the name above applied to the instant, which chrono's
/// source derives from the instant alone.
#[verifier::external_body]
pub(crate) fn rfc3339_text(ms: i64) -> (r: String)
    requires
        representable_instant(ms),
    ensures
        r@ == utc_rfc3339_text(ms),
{
    chrono::DateTime::<chrono::Utc>::from_timestamp_millis(ms)
        .map(|t| t.to_rfc3339_opts(chrono::SecondsFormat::Secs, true))
        .unwrap_or_default()
}

} // verus!
