//! Configuration resolution and credential assembly.
//!
//! Raw key material arrives from two sources (environment-style and
//! flag-style); `resolve` picks between them, and `validate` either yields a
//! complete `Settings` bundle or fails with a `StartupError` naming the first
//! missing or empty key. The process must not enter the scheduler loop when
//! validation fails.

use vstd::prelude::*;
use crate::errors::{ConfigField, StartupError};

verus! {

/// Raw configuration as a key/value source delivers it: every field may be
/// absent.
#[derive(Debug)]
pub struct RawConfig {
    pub user_id: Option<String>,
    pub feed_url: Option<String>,
    pub consumer_key: Option<String>,
    pub consumer_secret: Option<String>,
    pub access_token: Option<String>,
    pub access_token_secret: Option<String>,
    pub bearer_token: Option<String>,
    pub log: bool,
}

/// The four secret strings the social platform requires, plus the optional
/// bearer token. Immutable once constructed.
#[derive(Debug)]
pub struct Credentials {
    pub consumer_key: String,
    pub consumer_secret: String,
    pub access_token: String,
    pub access_token_secret: String,
    pub bearer_token: Option<String>,
}

/// The complete, validated bundle the loop runs on.
#[derive(Debug)]
pub struct Settings {
    pub credentials: Credentials,
    pub user_id: String,
    pub feed_url: String,
    pub log: bool,
}

/// Every field a source may supply is present (emptiness is checked later,
/// by `validate`).
pub open spec fn spec_all_present(c: RawConfig) -> bool {
    &&& c.user_id is Some
    &&& c.feed_url is Some
    &&& c.consumer_key is Some
    &&& c.consumer_secret is Some
    &&& c.access_token is Some
    &&& c.access_token_secret is Some
    &&& c.bearer_token is Some
}

impl RawConfig {
    /// True iff every field, the bearer token included, was supplied.
    pub fn all_present(&self) -> (r: bool)
        ensures
            r == spec_all_present(*self),
    {
        self.user_id.is_some() && self.feed_url.is_some() && self.consumer_key.is_some()
            && self.consumer_secret.is_some() && self.access_token.is_some()
            && self.access_token_secret.is_some() && self.bearer_token.is_some()
    }
}

/// Picks the configuration source: the primary source wins when it supplied
/// every field; otherwise the fallback source is taken whole. The two sources
/// are never mixed field by field.
pub fn resolve(primary: RawConfig, fallback: RawConfig) -> (r: RawConfig)
    ensures
        spec_all_present(primary) ==> r == primary,
        !spec_all_present(primary) ==> r == fallback,
{
    if primary.all_present() {
        primary
    } else {
        fallback
    }
}

/// The field is present and non-empty.
pub open spec fn spec_field_ok(o: Option<String>) -> bool {
    o matches Some(s) && s@.len() > 0
}

/// A raw configuration passes validation iff each required key is present
/// and non-empty. The bearer token is optional and never checked.
pub open spec fn spec_valid(c: RawConfig) -> bool {
    &&& spec_field_ok(c.user_id)
    &&& spec_field_ok(c.feed_url)
    &&& spec_field_ok(c.consumer_key)
    &&& spec_field_ok(c.consumer_secret)
    &&& spec_field_ok(c.access_token)
    &&& spec_field_ok(c.access_token_secret)
}

/// The first required key, in a fixed order, that is absent or empty.
pub open spec fn spec_first_bad_field(c: RawConfig) -> ConfigField {
    if !spec_field_ok(c.user_id) {
        ConfigField::UserId
    } else if !spec_field_ok(c.feed_url) {
        ConfigField::FeedUrl
    } else if !spec_field_ok(c.consumer_key) {
        ConfigField::ConsumerKey
    } else if !spec_field_ok(c.consumer_secret) {
        ConfigField::ConsumerSecret
    } else if !spec_field_ok(c.access_token) {
        ConfigField::AccessToken
    } else {
        ConfigField::AccessTokenSecret
    }
}

fn field_ok(o: &Option<String>) -> (r: bool)
    ensures
        r == spec_field_ok(*o),
{
    match o {
        Some(s) => s.as_str().unicode_len() > 0,
        None => false,
    }
}

/// Credential assembly: yields the complete `Settings` bundle exactly when
/// every required key is present and non-empty; otherwise fails with a
/// `StartupError::Configuration` naming the first missing or empty key, a
/// fatal condition.
pub fn validate(raw: RawConfig) -> (r: Result<Settings, StartupError>)
    ensures
        r is Ok <==> spec_valid(raw),
        r matches Ok(s) ==> {
            &&& Some(s.user_id) == raw.user_id
            &&& Some(s.feed_url) == raw.feed_url
            &&& Some(s.credentials.consumer_key) == raw.consumer_key
            &&& Some(s.credentials.consumer_secret) == raw.consumer_secret
            &&& Some(s.credentials.access_token) == raw.access_token
            &&& Some(s.credentials.access_token_secret) == raw.access_token_secret
            &&& s.credentials.bearer_token == raw.bearer_token
            &&& s.log == raw.log
        },
        r matches Err(e) ==> e == (StartupError::Configuration {
            field: spec_first_bad_field(raw),
        }),
{
    if !field_ok(&raw.user_id) {
        return Err(StartupError::Configuration { field: ConfigField::UserId });
    }
    if !field_ok(&raw.feed_url) {
        return Err(StartupError::Configuration { field: ConfigField::FeedUrl });
    }
    if !field_ok(&raw.consumer_key) {
        return Err(StartupError::Configuration { field: ConfigField::ConsumerKey });
    }
    if !field_ok(&raw.consumer_secret) {
        return Err(StartupError::Configuration { field: ConfigField::ConsumerSecret });
    }
    if !field_ok(&raw.access_token) {
        return Err(StartupError::Configuration { field: ConfigField::AccessToken });
    }
    if !field_ok(&raw.access_token_secret) {
        return Err(StartupError::Configuration { field: ConfigField::AccessTokenSecret });
    }
    let RawConfig {
        user_id,
        feed_url,
        consumer_key,
        consumer_secret,
        access_token,
        access_token_secret,
        bearer_token,
        log,
    } = raw;
    Ok(
        Settings {
            credentials: Credentials {
                consumer_key: consumer_key.unwrap(),
                consumer_secret: consumer_secret.unwrap(),
                access_token: access_token.unwrap(),
                access_token_secret: access_token_secret.unwrap(),
                bearer_token,
            },
            user_id: user_id.unwrap(),
            feed_url: feed_url.unwrap(),
            log,
        },
    )
}

} // verus!
