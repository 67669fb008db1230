use feed_bot::errors::CycleError;
use feed_bot::feed::{extract_latest_post, poll_feed, FeedEntry};
use feed_bot::published::latest_published;

fn feed_with_items(items: &str) -> Vec<u8> {
    format!(
        "<rss version=\"2.0\"><channel><title>Blog</title>\
         <link>https://blog.example</link><description>posts</description>\
         {}</channel></rss>",
        items
    )
    .into_bytes()
}

#[test]
fn poll_extracts_the_first_entry() {
    let bytes = feed_with_items(
        "<item><title>Hello</title><link>https://blog.example/hello</link>\
         <pubDate>Fri, 02 Jan 1970 00:00:00 +0000</pubDate></item>\
         <item><title>Older</title><link>https://blog.example/older</link>\
         <pubDate>Thu, 01 Jan 1970 00:00:00 +0000</pubDate></item>",
    );
    let post = poll_feed(&bytes).unwrap();
    assert_eq!(post.title, "Hello");
    assert_eq!(post.url, "https://blog.example/hello");
    assert_eq!(post.date.epoch_seconds, 86400);
}

#[test]
fn poll_respects_the_timezone_offset() {
    let bytes = feed_with_items(
        "<item><title>Offset</title><link>https://blog.example/offset</link>\
         <pubDate>Thu, 01 Jan 1970 01:00:00 +0100</pubDate></item>",
    );
    let post = poll_feed(&bytes).unwrap();
    assert_eq!(post.date.epoch_seconds, 0);
}

#[test]
fn empty_feed_fails_with_empty_feed_error() {
    let bytes = feed_with_items("");
    assert_eq!(poll_feed(&bytes).unwrap_err(), CycleError::EmptyFeed);
}

#[test]
fn missing_publish_date_fails_with_malformed_entry() {
    let bytes = feed_with_items(
        "<item><title>NoDate</title><link>https://blog.example/nodate</link></item>",
    );
    assert_eq!(poll_feed(&bytes).unwrap_err(), CycleError::MalformedEntry);
}

#[test]
fn unparseable_date_text_fails_with_malformed_entry() {
    let bytes = feed_with_items(
        "<item><title>BadDate</title><link>https://blog.example/bad</link>\
         <pubDate>sometime last week</pubDate></item>",
    );
    assert_eq!(poll_feed(&bytes).unwrap_err(), CycleError::MalformedEntry);
}

#[test]
fn unparseable_document_fails_with_remote_service() {
    let bytes = b"this is not a syndication document".to_vec();
    assert_eq!(poll_feed(&bytes).unwrap_err(), CycleError::RemoteService);
}

#[test]
fn extract_reports_missing_title() {
    let entries = vec![FeedEntry {
        title: None,
        link: Some(String::from("https://blog.example/x")),
        pub_date: Some(String::from("Thu, 01 Jan 1970 00:00:00 +0000")),
    }];
    assert_eq!(
        extract_latest_post(&entries).unwrap_err(),
        CycleError::MalformedEntry
    );
}

#[test]
fn extract_reports_an_empty_entry_list() {
    let entries: Vec<FeedEntry> = Vec::new();
    assert_eq!(extract_latest_post(&entries).unwrap_err(), CycleError::EmptyFeed);
}

#[test]
fn latest_published_parses_the_first_date() {
    let dates = vec![
        String::from("Thu, 01 Jan 1970 00:00:00 +0000"),
        String::from("Fri, 02 Jan 1970 00:00:00 +0000"),
    ];
    let t = latest_published(&dates).unwrap();
    assert_eq!(t.epoch_seconds, 0);
}

#[test]
fn latest_published_fails_on_a_silent_account() {
    let dates: Vec<String> = Vec::new();
    assert_eq!(
        latest_published(&dates).unwrap_err(),
        CycleError::NoPublishedItem
    );
}

#[test]
fn latest_published_fails_on_bad_date_text() {
    let dates = vec![String::from("never")];
    assert_eq!(
        latest_published(&dates).unwrap_err(),
        CycleError::RemoteService
    );
}
