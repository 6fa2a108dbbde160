//! Posting one text message to Twitter, Mastodon and Bluesky: the credentials
//! each platform needs, the request each one is sent, what its answer means,
//! and the order in which several platforms are attempted.

pub mod config;
pub mod dispatch;
pub mod facets;
pub mod message;
pub mod platform;
pub mod social;
