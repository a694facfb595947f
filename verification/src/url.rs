//! The URL-reader builder.
//!
//! A `UrlReader` collects a URL and a caching flag and turns them into the
//! `FetchRequest` that a `CachedFetcher` runs. The reading itself — driving
//! the fetch against the real filesystem and network, and handing the bytes
//! to a tabular decoder — is the surrounding program's part.

use vstd::prelude::*;

use crate::fetch::FetchRequest;

verus! {

/// A builder to read a remote resource from a URL.
pub struct UrlReader {
    /// Whether an existing cache entry may be served.
    pub cache: bool,
    /// The URL to read from.
    pub url: String,
}

impl UrlReader {
    /// A reader of `url`, with caching off.
    pub fn new(url: &str) -> (r: Self)
        ensures
            r.url@ == url@,
            r.cache == false,
    {
        UrlReader { cache: false, url: url.to_owned() }
    }

    /// Serve an existing cache entry if one is present.
    pub fn cache(&mut self)
        ensures
            final(self).cache == true,
            final(self).url == old(self).url,
    {
        self.cache = true;
    }

    /// The fetch request this builder describes.
    pub fn request(&self) -> (r: FetchRequest)
        ensures
            r.url@ == self.url@,
            r.cache_enabled == self.cache,
    {
        FetchRequest { url: self.url.clone(), cache_enabled: self.cache }
    }
}

/// Whether a fetch may serve a cached entry.
pub enum Cache {
    /// Serve an existing cache entry if one is present.
    On,
    /// Always download, though the result is still persisted.
    Off,
}

impl Cache {
    /// Whether this setting enables the cache.
    pub fn enabled(&self) -> (r: bool)
        ensures
            r == (self is On),
    {
        match self {
            Cache::On => true,
            Cache::Off => false,
        }
    }
}

} // verus!
