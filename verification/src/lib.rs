//! A small utility layer around tabular-data processing, whose centre is a
//! cache-backed remote-resource fetcher: given a URL it derives a stable,
//! filesystem-safe cache key, resolves the key to a path under a cache root,
//! and decides — step by step, as the surrounding program reports the outcome
//! of each directory, file and network operation — whether to serve a cached
//! entry or to download and persist a fresh one.
//!
//! The decision logic is pure and fully specified here; the surrounding
//! program performs the actual filesystem and network work and feeds the
//! outcomes back as events.

pub mod dates;
pub mod fetch;
pub mod key;
pub mod rows;
pub mod store;
pub mod url;
pub mod validate;
