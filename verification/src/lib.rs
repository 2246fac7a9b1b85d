//! A client library for a distributed key-value store's HTTP API, addressed
//! through an ordered list of cluster member endpoints.
//!
//! The heart of the crate is the failover dispatcher ([`first_ok::first_ok`]),
//! which tries an operation against each endpoint in order and returns the
//! first success or every error, and the key-value operation pipeline built on
//! top of it: request construction, response classification, and the watch
//! (long-poll) controller.

pub mod auth;
pub mod client;
pub mod codec;
pub mod error;
pub mod first_ok;
pub mod json;
pub mod kv;
pub mod members;
pub mod options;
pub mod strutil;
pub mod wire;

pub use client::{BasicAuth, ClusterInfo, Health, Response, VersionInfo};
pub use error::{ApiError, Error, WatchError};

