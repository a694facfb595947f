use std::collections::HashSet;

use datars::key::KeyDeriver;
use datars::store::CacheStore;

#[test]
fn test_hash() {
    let k = KeyDeriver::derive("https://google.com");
    println!("{:?}", k);
}

#[test]
fn derivation_is_deterministic() {
    let u = "http://example.test/a.csv";
    let first = KeyDeriver::derive(u);
    let second = KeyDeriver::derive(u);
    assert_eq!(first, second);
    assert_eq!(KeyDeriver::derive(&String::from(u)), first);
}

#[test]
fn known_hash_values() {
    // The empty input hashes to the FNV offset basis; "a" is the standard
    // single-character FNV-1a-64 vector.
    assert_eq!(KeyDeriver::derive(""), "14695981039346656037");
    assert_eq!(KeyDeriver::derive("a"), "12638187200555641996");
}

#[test]
fn keys_are_filesystem_safe_segments() {
    for u in ["", "https://google.com", "http://example.test/a.csv", "a b/c\\d?e=f&g#h"] {
        let k = KeyDeriver::derive(u);
        assert!(!k.is_empty());
        assert!(k.len() <= 20);
        assert!(k.chars().all(|c| c.is_ascii_digit()));
    }
}

#[test]
fn no_collisions_over_a_large_corpus() {
    let mut keys = HashSet::new();
    let mut count = 0usize;
    for i in 0..10_500u32 {
        let url = format!("http://example.test/data/{}.csv", i);
        keys.insert(KeyDeriver::derive(&url));
        count += 1;
    }
    assert_eq!(keys.len(), count);
}

#[test]
fn resolve_joins_root_namespace_and_key() {
    let store = CacheStore::new("/tmp/cache".to_string());
    assert_eq!(store.namespace_dir(), "/tmp/cache/datars");
    assert_eq!(store.resolve("12345"), "/tmp/cache/datars/12345");
}

#[test]
fn distinct_urls_resolve_to_distinct_paths() {
    let store = CacheStore::new("root".to_string());
    let p1 = store.resolve(&KeyDeriver::derive("http://example.test/a.csv"));
    let p2 = store.resolve(&KeyDeriver::derive("http://example.test/b.csv"));
    assert_ne!(p1, p2);
}
