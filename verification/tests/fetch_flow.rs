use datars::fetch::Action;
use datars::fetch::CachedFetcher;
use datars::fetch::Event;
use datars::fetch::FetchError;
use datars::fetch::FetchOutcome;
use datars::fetch::FetchRequest;
use datars::key::KeyDeriver;
use datars::store::CacheStore;

fn request(url: &str, cache_enabled: bool) -> FetchRequest {
    FetchRequest { url: url.to_string(), cache_enabled }
}

#[test]
fn first_call_downloads_and_persists() {
    let store = CacheStore::new("cacheroot".to_string());
    let (fetcher, action) = CachedFetcher::start(request("http://example.test/a.csv", true), &store);
    assert_eq!(action, Action::EnsureNamespace);
    let key = KeyDeriver::derive("http://example.test/a.csv");
    assert_eq!(fetcher.key, key);
    assert_eq!(fetcher.path, store.resolve(&key));

    let (fetcher, action) = fetcher.step(Event::NamespaceOk);
    assert_eq!(action, Action::ProbeEntry);
    let (fetcher, action) = fetcher.step(Event::Probed(false));
    assert_eq!(action, Action::Download);
    let bytes = b"x,y\n1,2\n".to_vec();
    let (fetcher, action) = fetcher.step(Event::Fetched(bytes.clone()));
    assert_eq!(action, Action::Persist);
    assert_eq!(fetcher.pending_bytes(), &bytes);
    let (fetcher, action) = fetcher.step(Event::Written);
    assert_eq!(action, Action::Stop);
    match fetcher.result() {
        Ok(FetchOutcome::Downloaded(served)) => assert_eq!(served, bytes),
        other => panic!("expected the downloaded bytes, got {:?}", other),
    }
}

#[test]
fn second_call_is_served_from_cache_without_network() {
    let store = CacheStore::new("cacheroot".to_string());
    let (fetcher, _) = CachedFetcher::start(request("http://example.test/a.csv", true), &store);
    let mut actions = Vec::new();
    let (fetcher, action) = fetcher.step(Event::NamespaceOk);
    actions.push(action);
    let (fetcher, action) = fetcher.step(Event::Probed(true));
    actions.push(action);
    let (fetcher, action) = fetcher.step(Event::Opened);
    actions.push(action);
    assert_eq!(actions, vec![Action::ProbeEntry, Action::OpenEntry, Action::Stop]);
    assert!(!actions.contains(&Action::Download));
    assert_eq!(fetcher.result(), Ok(FetchOutcome::FromCache));
}

#[test]
fn disabled_cache_downloads_despite_existing_entry() {
    let store = CacheStore::new("cacheroot".to_string());
    let (fetcher, _) = CachedFetcher::start(request("http://example.test/a.csv", false), &store);
    let (fetcher, action) = fetcher.step(Event::NamespaceOk);
    assert_eq!(action, Action::Download);
    let bytes = b"fresh".to_vec();
    let (fetcher, action) = fetcher.step(Event::Fetched(bytes.clone()));
    assert_eq!(action, Action::Persist);
    assert_eq!(fetcher.pending_bytes(), &bytes);
    let (fetcher, _) = fetcher.step(Event::Written);
    assert_eq!(fetcher.result(), Ok(FetchOutcome::Downloaded(bytes)));
}

#[test]
fn vanished_entry_falls_back_to_download() {
    let store = CacheStore::new("cacheroot".to_string());
    let (fetcher, _) = CachedFetcher::start(request("http://example.test/a.csv", true), &store);
    let (fetcher, _) = fetcher.step(Event::NamespaceOk);
    let (fetcher, action) = fetcher.step(Event::Probed(true));
    assert_eq!(action, Action::OpenEntry);
    let (fetcher, action) = fetcher.step(Event::OpenFailed);
    assert_eq!(action, Action::Download);
    let bytes = b"x,y\n1,2\n".to_vec();
    let (fetcher, _) = fetcher.step(Event::Fetched(bytes.clone()));
    let (fetcher, _) = fetcher.step(Event::Written);
    assert_eq!(fetcher.result(), Ok(FetchOutcome::Downloaded(bytes)));
}

#[test]
fn failed_persist_is_a_storage_error() {
    let store = CacheStore::new("cacheroot".to_string());
    let (fetcher, _) = CachedFetcher::start(request("http://example.test/a.csv", true), &store);
    let (fetcher, _) = fetcher.step(Event::NamespaceOk);
    let (fetcher, _) = fetcher.step(Event::Probed(false));
    let (fetcher, _) = fetcher.step(Event::Fetched(b"x,y\n1,2\n".to_vec()));
    let (fetcher, action) = fetcher.step(Event::WriteFailed);
    assert_eq!(action, Action::Stop);
    assert_eq!(fetcher.result(), Err(FetchError::Storage));
}

#[test]
fn failed_download_is_a_remote_error() {
    let store = CacheStore::new("cacheroot".to_string());
    let (fetcher, _) = CachedFetcher::start(request("http://example.test/a.csv", true), &store);
    let (fetcher, _) = fetcher.step(Event::NamespaceOk);
    let (fetcher, _) = fetcher.step(Event::Probed(false));
    let (fetcher, action) = fetcher.step(Event::FetchFailed);
    assert_eq!(action, Action::Stop);
    assert_eq!(fetcher.result(), Err(FetchError::Remote));
}

#[test]
fn failed_namespace_creation_is_a_storage_error() {
    let store = CacheStore::new("cacheroot".to_string());
    let (fetcher, _) = CachedFetcher::start(request("http://example.test/a.csv", true), &store);
    let (fetcher, action) = fetcher.step(Event::NamespaceFailed);
    assert_eq!(action, Action::Stop);
    assert_eq!(fetcher.result(), Err(FetchError::Storage));
}
