//! The error taxonomy: fatal startup failures and recoverable per-cycle
//! failures.

use vstd::prelude::*;

verus! {

/// The configuration keys that must be present and non-empty before the loop
/// may start.
#[derive(Clone, Copy, Debug, PartialEq, Eq, Structural)]
pub enum ConfigField {
    UserId,
    FeedUrl,
    ConsumerKey,
    ConsumerSecret,
    AccessToken,
    AccessTokenSecret,
}

/// Fatal startup failures: the process must not enter the scheduler loop.
#[derive(Clone, Copy, Debug, PartialEq, Eq, Structural)]
pub enum StartupError {
    /// A required configuration key is absent or empty.
    Configuration { field: ConfigField },
    /// The remote service rejected the credentials during the startup
    /// verification round-trip.
    Authentication,
}

/// Recoverable per-cycle failures: the cycle is abandoned, reported, and the
/// loop proceeds to the next scheduled attempt.
#[derive(Clone, Copy, Debug, PartialEq, Eq, Structural)]
pub enum CycleError {
    /// The feed document contained zero entries.
    EmptyFeed,
    /// The feed's first entry is missing its title, link or publish date, or
    /// the date text could not be parsed.
    MalformedEntry,
    /// The account has never published anything, so there is nothing to
    /// compare against.
    NoPublishedItem,
    /// A transport or protocol failure from one of the remote services.
    RemoteService,
    /// The remote service rejected the publish call.
    Publish,
}

/// The configuration key's name, as an operator would look it up.
pub open spec fn spec_field_key(f: ConfigField) -> Seq<char> {
    match f {
        ConfigField::UserId => "USER_ID"@,
        ConfigField::FeedUrl => "RSS"@,
        ConfigField::ConsumerKey => "CONSUMER_KEY"@,
        ConfigField::ConsumerSecret => "CONSUMER_SECRET"@,
        ConfigField::AccessToken => "ACCESS_TOKEN"@,
        ConfigField::AccessTokenSecret => "ACCESS_TOKEN_SECRET"@,
    }
}

impl ConfigField {
    /// The configuration key's name, for startup diagnostics.
    pub fn key_name(&self) -> (r: &'static str)
        ensures
            r@ == spec_field_key(*self),
    {
        match self {
            ConfigField::UserId => "USER_ID",
            ConfigField::FeedUrl => "RSS",
            ConfigField::ConsumerKey => "CONSUMER_KEY",
            ConfigField::ConsumerSecret => "CONSUMER_SECRET",
            ConfigField::AccessToken => "ACCESS_TOKEN",
            ConfigField::AccessTokenSecret => "ACCESS_TOKEN_SECRET",
        }
    }
}

} // verus!
