//! The feed poller's logic: parse a syndication document and extract the
//! newest entry as the candidate post.
//!
//! The document parse is delegated to an outside RSS library behind one
//! trusted wrapper; selecting the first entry, checking its fields and
//! reading its date are verified here.

use vstd::prelude::*;
use crate::datetime::{parse_rfc2822, rfc2822_epoch};
use crate::errors::CycleError;
use crate::timestamp::Timestamp;

verus! {

/// One feed entry as the document supplied it: any of the three fields may
/// be missing.
#[derive(Debug)]
pub struct FeedEntry {
    pub title: Option<String>,
    pub link: Option<String>,
    pub pub_date: Option<String>,
}

/// The candidate post extracted from the feed: produced fresh on every poll
/// cycle, discarded after the publish decision.
#[derive(Debug)]
pub struct Post {
    pub title: String,
    pub url: String,
    pub date: Timestamp,
}

/// A feed entry reduced to its text: title, link, publish-date text.
pub type EntryData = (Option<Seq<char>>, Option<Seq<char>>, Option<Seq<char>>);

pub open spec fn spec_opt_text(o: Option<String>) -> Option<Seq<char>> {
    match o {
        Some(s) => Some(s@),
        None => None,
    }
}

pub open spec fn spec_entry_data(e: FeedEntry) -> EntryData {
    (spec_opt_text(e.title), spec_opt_text(e.link), spec_opt_text(e.pub_date))
}

pub open spec fn spec_entries_data(s: Seq<FeedEntry>) -> Seq<EntryData> {
    s.map_values(|e: FeedEntry| spec_entry_data(e))
}

/// What parsing a syndication document yields: the entries in document
/// order, each reduced to its three text fields, or nothing when the bytes
/// are not a well-formed document. The result depends on the bytes alone.
pub uninterp spec fn feed_parse(bytes: Seq<u8>) -> Option<Seq<EntryData>>;

/// Relies on `rss::Channel::read_from`: parsing an RSS document is a pure
/// function of the input bytes, and the returned channel's items carry each
/// entry's title, link and pubDate text unchanged, in document order.
#[verifier::external_body]
fn read_feed(bytes: &[u8]) -> (r: Option<Vec<FeedEntry>>)
    ensures
        r is Some <==> feed_parse(bytes@) is Some,
        r matches Some(v) ==> feed_parse(bytes@) == Some(spec_entries_data(v@)),
{
    let channel = rss::Channel::read_from(bytes).ok()?;
    Some(
        channel.items().iter().map(
            |i| FeedEntry {
                title: i.title().map(String::from),
                link: i.link().map(String::from),
                pub_date: i.pub_date().map(String::from),
            },
        ).collect(),
    )
}

/// What extracting the candidate post from the parsed entries yields:
/// the first entry's title, link and epoch seconds, or the per-cycle error
/// the feed poller reports.
pub open spec fn spec_extract(entries: Seq<EntryData>) -> Result<
    (Seq<char>, Seq<char>, i64),
    CycleError,
> {
    if entries.len() == 0 {
        Err(CycleError::EmptyFeed)
    } else {
        let (title, link, date_text) = entries[0];
        if title is None || link is None || date_text is None {
            Err(CycleError::MalformedEntry)
        } else {
            match rfc2822_epoch(date_text.unwrap()) {
                Some(seconds) => Ok((title.unwrap(), link.unwrap(), seconds)),
                None => Err(CycleError::MalformedEntry),
            }
        }
    }
}

/// The post a successful extraction describes.
pub open spec fn spec_post_matches(r: Result<Post, CycleError>, x: Result<
    (Seq<char>, Seq<char>, i64),
    CycleError,
>) -> bool {
    match r {
        Ok(p) => x == Ok::<_, CycleError>((p.title@, p.url@, p.date.epoch_seconds)),
        Err(e) => x == Err::<(Seq<char>, Seq<char>, i64), _>(e),
    }
}

/// Selects the structurally first entry as the candidate post. Fails with
/// `EmptyFeed` when the document holds zero entries, and with
/// `MalformedEntry` when the first entry is missing its title, link or
/// publish date or the date text is not a valid RFC 2822 date.
pub fn extract_latest_post(entries: &Vec<FeedEntry>) -> (r: Result<Post, CycleError>)
    ensures
        spec_post_matches(r, spec_extract(spec_entries_data(entries@))),
{
    if entries.len() == 0 {
        return Err(CycleError::EmptyFeed);
    }
    let first = &entries[0];
    assert(spec_entries_data(entries@)[0] == spec_entry_data(entries@[0]));
    match (&first.title, &first.link, &first.pub_date) {
        (Some(title), Some(link), Some(date_text)) => {
            match parse_rfc2822(date_text.as_str()) {
                Some(seconds) => Ok(
                    Post {
                        title: title.clone(),
                        url: link.clone(),
                        date: Timestamp::new(seconds),
                    },
                ),
                None => Err(CycleError::MalformedEntry),
            }
        },
        _ => Err(CycleError::MalformedEntry),
    }
}

/// What one poll of the feed yields from the raw document bytes: the first
/// entry's data, or the error of the step that failed. A document that does
/// not parse at all is a protocol failure of the remote side.
pub open spec fn spec_poll(bytes: Seq<u8>) -> Result<(Seq<char>, Seq<char>, i64), CycleError> {
    match feed_parse(bytes) {
        Some(entries) => spec_extract(entries),
        None => Err(CycleError::RemoteService),
    }
}

/// The feed poller: parses the fetched document and extracts the newest
/// entry's title, link and publish instant.
pub fn poll_feed(bytes: &[u8]) -> (r: Result<Post, CycleError>)
    ensures
        spec_post_matches(r, spec_poll(bytes@)),
{
    match read_feed(bytes) {
        Some(entries) => extract_latest_post(&entries),
        None => Err(CycleError::RemoteService),
    }
}

} // verus!
