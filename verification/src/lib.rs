//! One access layer for S3-compatible object stores.
//!
//! The library decides; it sends nothing. For every operation it says what
//! is asked of a backend and what is made of the backend's answer, and it
//! builds the two clients that do the asking: the storage operator of one
//! bucket and the administrative client of one account.
//!
//! - [`models`]: connections, objects, buckets and what a backend reports
//! - [`services`]: the client factory, listing, object and bucket operations
//! - [`commands`]: the registry of connections and the commands on it
//! - [`state`]: the registry itself
//! - [`error`]: the one taxonomy of failures
//! - [`text`]: operations on keys and messages

pub mod commands;
pub mod error;
pub mod models;
pub mod services;
pub mod state;
pub mod text;
