//! The published-state checker's logic: from the account's recent items,
//! in most-recent-first order, to the instant of the latest published
//! update.
//!
//! Querying the account is the runtime's job; it hands over each item's
//! date text, and everything decided from there is verified here.

use vstd::prelude::*;
use crate::datetime::{parse_rfc2822, rfc2822_epoch};
use crate::errors::CycleError;
use crate::timestamp::Timestamp;

verus! {

pub open spec fn spec_texts(dates: Seq<String>) -> Seq<Seq<char>> {
    dates.map_values(|s: String| s@)
}

/// What the published-state check yields from the queried items' date
/// texts: the first item's instant in epoch seconds, `NoPublishedItem` when
/// the account has never published, or `RemoteService` when the service
/// handed back date text that does not parse.
pub open spec fn spec_published(dates: Seq<Seq<char>>) -> Result<i64, CycleError> {
    if dates.len() == 0 {
        Err(CycleError::NoPublishedItem)
    } else {
        match rfc2822_epoch(dates[0]) {
            Some(seconds) => Ok(seconds),
            None => Err(CycleError::RemoteService),
        }
    }
}

/// Extracts the instant of the account's most recent published item from
/// the queried items' RFC 2822 date texts, most recent first.
pub fn latest_published(dates: &Vec<String>) -> (r: Result<Timestamp, CycleError>)
    ensures
        r matches Ok(t) ==> spec_published(spec_texts(dates@)) == Ok::<_, CycleError>(
            t.epoch_seconds,
        ),
        r matches Err(e) ==> spec_published(spec_texts(dates@)) == Err::<i64, _>(e),
{
    if dates.len() == 0 {
        return Err(CycleError::NoPublishedItem);
    }
    assert(spec_texts(dates@)[0] == dates@[0]@);
    match parse_rfc2822(dates[0].as_str()) {
        Some(seconds) => Ok(Timestamp::new(seconds)),
        None => Err(CycleError::RemoteService),
    }
}

} // verus!
