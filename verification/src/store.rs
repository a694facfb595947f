//! Resolution of cache keys to filesystem paths.
//!
//! A `CacheStore` holds the cache root it was constructed with and resolves a
//! key to `<root>/<namespace>/<key>` by pure string concatenation; it does no
//! filesystem work itself. The surrounding program creates the directories,
//! probes, reads and writes the resolved paths, and reports the outcomes back
//! to the fetcher's decision logic.

use vstd::prelude::*;

use crate::key::key_of;
use crate::key::fnv1a;
use crate::key::lemma_derive_injective_without_collision;

verus! {

/// The directory name under the cache root that holds this library's entries.
pub open spec fn namespace() -> Seq<char> {
    "datars"@
}

/// The path of a cache entry: `<root>/<namespace>/<key>`.
pub open spec fn path_of(root: Seq<char>, key: Seq<char>) -> Seq<char> {
    root + "/"@ + namespace() + "/"@ + key
}

fn namespace_str() -> (r: &'static str)
    ensures
        r@ == namespace(),
{
    "datars"
}

fn separator_str() -> (r: &'static str)
    ensures
        r@ == "/"@,
{
    "/"
}

/// Resolves cache keys to entry paths under an injected cache root.
pub struct CacheStore {
    /// The process-wide cache directory this store was constructed with.
    pub cache_root: String,
}

impl CacheStore {
    /// Make a store over the given cache root.
    pub fn new(cache_root: String) -> (s: Self)
        ensures
            s.cache_root == cache_root,
    {
        CacheStore { cache_root }
    }

    /// The namespace directory that all entries live in: `<root>/<namespace>`.
    /// The surrounding program creates this directory (and the root above it)
    /// lazily and idempotently.
    pub fn namespace_dir(&self) -> (p: String)
        ensures
            p@ == self.cache_root@ + "/"@ + namespace(),
    {
        let mut p = self.cache_root.clone();
        p.append(separator_str());
        p.append(namespace_str());
        p
    }

    /// Resolve a key to its entry path: a pure join of the cache root, the
    /// namespace and the key. No I/O.
    pub fn resolve(&self, key: &str) -> (p: String)
        ensures
            p@ == path_of(self.cache_root@, key@),
    {
        let mut p = self.cache_root.clone();
        p.append(separator_str());
        p.append(namespace_str());
        p.append(separator_str());
        p.append(key);
        p
    }
}

/// Law: under one root, distinct keys resolve to distinct entry paths.
pub proof fn lemma_resolve_injective(root: Seq<char>, k1: Seq<char>, k2: Seq<char>)
    requires
        k1 != k2,
    ensures
        path_of(root, k1) != path_of(root, k2),
{
    let prefix = root + "/"@ + namespace() + "/"@;
    assert(path_of(root, k1) =~= prefix + k1);
    assert(path_of(root, k2) =~= prefix + k2);
    if path_of(root, k1) == path_of(root, k2) {
        assert((prefix + k1).subrange(prefix.len() as int, (prefix + k1).len() as int) =~= k1);
        assert((prefix + k2).subrange(prefix.len() as int, (prefix + k2).len() as int) =~= k2);
    }
}

/// Law: distinct URLs whose hashes do not collide are cached at distinct
/// entry paths under one root, so neither ever serves the other's bytes.
pub proof fn lemma_distinct_urls_distinct_paths(root: Seq<char>, u1: Seq<char>, u2: Seq<char>)
    requires
        u1 != u2,
        fnv1a(u1) != fnv1a(u2),
    ensures
        path_of(root, key_of(u1)) != path_of(root, key_of(u2)),
{
    lemma_derive_injective_without_collision(u1, u2);
    lemma_resolve_injective(root, key_of(u1), key_of(u2));
}

} // verus!
