//! Timestamp text validation.
//!
//! Timestamps travel through the library as RFC 3339 text; whether a
//! text is a valid timestamp is decided by the date-time library and
//! carried here as the named predicate `is_rfc3339`.

use vstd::prelude::*;

verus! {

/// Whether a text is a valid RFC 3339 date-time, as the date-time
/// library decides it.
pub uninterp spec fn is_rfc3339(s: Seq<char>) -> bool;

/// Relies on chrono's DateTime::parse_from_rfc3339: whether a text
/// parses as an RFC 3339 date-time is a function of the text alone.
#[verifier::external_body]
pub fn rfc3339_valid(s: &str) -> (b: bool)
    ensures
        b == is_rfc3339(s@),
{
    chrono::DateTime::parse_from_rfc3339(s).is_ok()
}

} // verus!
