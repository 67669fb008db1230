//! One cycle's decision: poll results in, publish decision out.
//!
//! The feed is polled and the account's published state is read before this
//! decision runs; the decision itself is pure. At most one publish happens
//! per cycle, and only when the candidate post is strictly newer than the
//! last published update.

use vstd::prelude::*;
use crate::errors::CycleError;
use crate::feed::{feed_parse, poll_feed, spec_poll, EntryData, Post};
use crate::published::{latest_published, spec_published, spec_texts};
use crate::publisher::{format_update, spec_update_text};
use crate::timestamp::{spec_is_newer, Timestamp};

verus! {

/// What a cycle ends in: publish this text, nothing new to publish, or the
/// cycle was abandoned on a recoverable error.
#[derive(Debug)]
pub enum CycleOutcome {
    /// A new post appeared: submit exactly this update text.
    Publish { text: String },
    /// The newest post is not newer than the last published update.
    UpToDate,
    /// A step failed; the cycle is abandoned and no publish happens.
    Skipped { error: CycleError },
}

/// The publish decision. The publisher is invoked only when both poll
/// results are at hand and the candidate post strictly postdates the last
/// published update; every failure abandons the cycle before any publish.
pub fn decide(post: Result<Post, CycleError>, last: Result<Timestamp, CycleError>) -> (r:
    CycleOutcome)
    ensures
        post matches Err(e) ==> r == (CycleOutcome::Skipped { error: e }),
        post is Ok && last is Err ==> r == (CycleOutcome::Skipped { error: last->Err_0 }),
        post is Ok && last is Ok ==> {
            let p = post->Ok_0;
            let t = last->Ok_0;
            if spec_is_newer(p.date, t) {
                r matches CycleOutcome::Publish { text } && text@ == spec_update_text(
                    p.title@,
                    p.url@,
                )
            } else {
                r == CycleOutcome::UpToDate
            }
        },
{
    match (post, last) {
        (Ok(p), Ok(t)) => {
            if p.date.is_newer(t) {
                CycleOutcome::Publish { text: format_update(&p) }
            } else {
                CycleOutcome::UpToDate
            }
        },
        (Err(e), _) => CycleOutcome::Skipped { error: e },
        (_, Err(e)) => CycleOutcome::Skipped { error: e },
    }
}

/// What a whole cycle decides, from the fetched document bytes and the
/// account's published dates: the error of the first step that failed, or
/// the comparison's verdict on the extracted post.
pub open spec fn spec_cycle_outcome_ok(
    r: CycleOutcome,
    poll: Result<(Seq<char>, Seq<char>, i64), CycleError>,
    published: Result<i64, CycleError>,
) -> bool {
    match poll {
        Err(e) => r == (CycleOutcome::Skipped { error: e }),
        Ok((title, url, post_seconds)) => match published {
            Err(e) => r == (CycleOutcome::Skipped { error: e }),
            Ok(last_seconds) => {
                if post_seconds > last_seconds {
                    r matches CycleOutcome::Publish { text } && text@ == spec_update_text(
                        title,
                        url,
                    )
                } else {
                    r == CycleOutcome::UpToDate
                }
            },
        },
    }
}

/// An abandoned cycle never publishes: whenever the feed poll or the
/// published-state check failed, a cycle obeying the decision above ends in
/// `Skipped`, and the publisher is never handed an update.
pub proof fn lemma_failure_skips_publish(
    r: CycleOutcome,
    poll: Result<(Seq<char>, Seq<char>, i64), CycleError>,
    published: Result<i64, CycleError>,
)
    requires
        poll is Err || published is Err,
        spec_cycle_outcome_ok(r, poll, published),
    ensures
        r is Skipped,
        !(r is Publish),
{
}

/// A feed document with zero entries makes the poll fail with `EmptyFeed`,
/// and the cycle is abandoned without any publish.
pub proof fn lemma_empty_feed_abandons_cycle(
    r: CycleOutcome,
    bytes: Seq<u8>,
    published: Result<i64, CycleError>,
)
    requires
        feed_parse(bytes) == Some(Seq::<EntryData>::empty()),
        spec_cycle_outcome_ok(r, spec_poll(bytes), published),
    ensures
        spec_poll(bytes) == Err::<(Seq<char>, Seq<char>, i64), _>(CycleError::EmptyFeed),
        r == (CycleOutcome::Skipped { error: CycleError::EmptyFeed }),
{
}

/// A feed whose first entry lacks a publish date makes the poll fail with
/// `MalformedEntry`, and the cycle is abandoned without any publish.
pub proof fn lemma_missing_date_abandons_cycle(
    r: CycleOutcome,
    bytes: Seq<u8>,
    entries: Seq<EntryData>,
    published: Result<i64, CycleError>,
)
    requires
        feed_parse(bytes) == Some(entries),
        entries.len() > 0,
        entries[0].2 is None,
        spec_cycle_outcome_ok(r, spec_poll(bytes), published),
    ensures
        spec_poll(bytes) == Err::<(Seq<char>, Seq<char>, i64), _>(CycleError::MalformedEntry),
        r == (CycleOutcome::Skipped { error: CycleError::MalformedEntry }),
{
}

/// One full cycle's work after the two fetches: parse the feed document,
/// read the account's latest published date, compare, and decide. The feed
/// is examined before the published state, so the error of the earlier step
/// wins when both fail.
pub fn run_cycle(feed_bytes: &[u8], published_dates: &Vec<String>) -> (r: CycleOutcome)
    ensures
        spec_cycle_outcome_ok(r, spec_poll(feed_bytes@), spec_published(spec_texts(published_dates@))),
{
    let post = poll_feed(feed_bytes);
    let last = latest_published(published_dates);
    decide(post, last)
}

} // verus!
