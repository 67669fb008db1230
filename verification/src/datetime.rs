//! Parsing RFC 2822 date text into the common instant representation.
//!
//! The parse itself is delegated to an outside date library; everything the
//! loop decides afterwards is a function of the returned epoch seconds.

use vstd::prelude::*;

verus! {

/// What parsing a piece of RFC 2822 date text yields: the instant's seconds
/// since the Unix epoch, or nothing when the text is not a valid RFC 2822
/// date. The result depends on the text alone.
pub uninterp spec fn rfc2822_epoch(s: Seq<char>) -> Option<i64>;

/// Relies on `chrono::DateTime::<FixedOffset>::parse_from_rfc2822` to read the
/// date text, and on `chrono::DateTime::timestamp` to reduce the parsed
/// instant to seconds since the Unix epoch; both are pure functions of the
/// text alone.
#[verifier::external_body]
pub fn parse_rfc2822(s: &str) -> (r: Option<i64>)
    ensures
        r == rfc2822_epoch(s@),
{
    chrono::DateTime::parse_from_rfc2822(s).ok().map(|d| d.timestamp())
}

} // verus!
