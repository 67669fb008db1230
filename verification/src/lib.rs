//! A small control loop that watches a blog's syndication feed and publishes
//! a social-media update whenever a new post appears.
//!
//! The library holds the verified logic: credential validation, feed-entry
//! extraction, timestamp comparison, update formatting, and the scheduler
//! state machine. Network transport and the runtime loop live outside it.

pub mod config;
pub mod cycle;
pub mod datetime;
pub mod errors;
pub mod feed;
pub mod published;
pub mod publisher;
pub mod scheduler;
pub mod timestamp;
