//! A single-value cache for remotely fetched, expiring data.
//!
//! The heart of the crate is [`remote_store::RemoteStore`]: it holds one
//! value together with its expiry, serves it to any number of concurrent
//! callers, and refreshes it through a user-supplied
//! [`remote_store::RemoteGet`] implementation at most once at a time
//! (single-flight). The remaining modules hold the small verified pieces of
//! the surrounding service: identifier validation, request-path building,
//! scope handling and plain settings data.

pub mod cis;
pub mod graphql_api;
pub mod permissions;
pub mod remote_store;
pub mod settings;
pub mod trust;
