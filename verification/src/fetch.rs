//! The cache-backed fetch decision logic.
//!
//! A `CachedFetcher` runs one fetch for one request. It is a state machine
//! over the outcomes of the outside operations — creating the namespace
//! directories, probing the entry path, opening the entry, downloading the
//! URL, persisting the downloaded bytes — which the surrounding program
//! performs and reports back as events. Each step answers with the next
//! operation to perform, so the policy (when an entry is served, when a
//! download happens, which failure yields which error) is decided entirely
//! here:
//!
//!   * with caching enabled, a present and readable entry is served as a hit
//!     and no download is asked for;
//!   * an entry that is reported present but then fails to open is treated as
//!     a miss, not as an error: the fetch falls back to a download;
//!   * with caching disabled, a download is asked for unconditionally, and a
//!     successful download is still persisted at the entry path for later
//!     hits, overwriting whatever was there;
//!   * a download failure is `FetchError::Remote`; a directory-creation or
//!     persist failure is `FetchError::Storage`, and in the latter case the
//!     downloaded bytes are discarded — a fetch whose entry could not be
//!     persisted does not succeed.

use vstd::prelude::*;

use crate::key::KeyDeriver;
use crate::key::key_of;
use crate::store::CacheStore;
use crate::store::path_of;

verus! {

/// One fetch request: the URL to retrieve and whether a cached entry may be
/// served in place of a download.
pub struct FetchRequest {
    /// The URL to retrieve.
    pub url: String,
    /// Whether an existing cache entry may satisfy the request.
    pub cache_enabled: bool,
}

/// Why a fetch failed.
#[derive(Debug, PartialEq, Eq, Clone, Copy)]
pub enum FetchError {
    /// A filesystem operation failed: directory creation or the persisting
    /// of a downloaded entry.
    Storage,
    /// The network retrieval failed: connection, status or body read; the
    /// kinds are not distinguished.
    Remote,
    /// The downstream decoder could not parse the fetched bytes. Raised by
    /// the consumer of the returned reader, never by the fetcher itself.
    Decode,
}

/// How a successful fetch is served.
#[derive(Debug, PartialEq, Eq)]
pub enum FetchOutcome {
    /// A cached entry was opened; the reader over that file serves the bytes.
    FromCache,
    /// The URL was downloaded and persisted; the held bytes serve the result
    /// directly, with no read-back from disk.
    Downloaded(Vec<u8>),
}

/// The outcome of one outside operation, reported back to the fetcher.
#[derive(Debug, PartialEq, Eq)]
pub enum Event {
    /// The cache root and namespace directories exist or were created.
    NamespaceOk,
    /// Directory creation failed for a real reason (not "already exists").
    NamespaceFailed,
    /// Whether a regular file is present at the entry path.
    Probed(bool),
    /// The entry at the path was opened for reading.
    Opened,
    /// The entry could not be opened (vanished, unreadable, ...).
    OpenFailed,
    /// The download succeeded with these body bytes.
    Fetched(Vec<u8>),
    /// The download failed: connection, status or body read.
    FetchFailed,
    /// The downloaded bytes were written to the entry path in full.
    Written,
    /// Writing the entry failed.
    WriteFailed,
}

/// The operation the surrounding program is asked to perform next.
#[derive(Debug, PartialEq, Eq, Clone, Copy)]
pub enum Action {
    /// Create the cache root and namespace directories if absent; report
    /// `NamespaceOk` or `NamespaceFailed`.
    EnsureNamespace,
    /// Test whether a regular file is present at the entry path; report
    /// `Probed(..)`.
    ProbeEntry,
    /// Open the entry path for reading; report `Opened` or `OpenFailed`.
    OpenEntry,
    /// Download the URL; report `Fetched(..)` or `FetchFailed`.
    Download,
    /// Write the held bytes to the entry path; report `Written` or
    /// `WriteFailed`.
    Persist,
    /// The fetch is over; take the result.
    Stop,
}

/// Where a fetch stands: which outside operation it awaits, or its result.
#[derive(Debug, PartialEq, Eq)]
pub enum FetchState {
    /// Awaiting the namespace directories.
    EnsuringNamespace,
    /// Awaiting the presence probe of the entry path.
    Probing,
    /// Awaiting the open of a present entry.
    Opening,
    /// Awaiting the download.
    Downloading,
    /// Awaiting the persist of the downloaded bytes.
    Writing(Vec<u8>),
    /// The fetch is over.
    Done(Result<FetchOutcome, FetchError>),
}

/// Whether `ev` is an outcome of the operation that state `s` awaits.
pub open spec fn awaits(s: FetchState, ev: Event) -> bool {
    match (s, ev) {
        (FetchState::EnsuringNamespace, Event::NamespaceOk) => true,
        (FetchState::EnsuringNamespace, Event::NamespaceFailed) => true,
        (FetchState::Probing, Event::Probed(_)) => true,
        (FetchState::Opening, Event::Opened) => true,
        (FetchState::Opening, Event::OpenFailed) => true,
        (FetchState::Downloading, Event::Fetched(_)) => true,
        (FetchState::Downloading, Event::FetchFailed) => true,
        (FetchState::Writing(_), Event::Written) => true,
        (FetchState::Writing(_), Event::WriteFailed) => true,
        _ => false,
    }
}

/// The state after `s` handles `ev`; the whole fetch policy stands here.
pub open spec fn next_state(cache_enabled: bool, s: FetchState, ev: Event) -> FetchState {
    match (s, ev) {
        (FetchState::EnsuringNamespace, Event::NamespaceOk) => if cache_enabled {
            FetchState::Probing
        } else {
            FetchState::Downloading
        },
        (FetchState::EnsuringNamespace, Event::NamespaceFailed) => FetchState::Done(
            Err(FetchError::Storage),
        ),
        (FetchState::Probing, Event::Probed(present)) => if present {
            FetchState::Opening
        } else {
            FetchState::Downloading
        },
        (FetchState::Opening, Event::Opened) => FetchState::Done(Ok(FetchOutcome::FromCache)),
        (FetchState::Opening, Event::OpenFailed) => FetchState::Downloading,
        (FetchState::Downloading, Event::Fetched(bytes)) => FetchState::Writing(bytes),
        (FetchState::Downloading, Event::FetchFailed) => FetchState::Done(
            Err(FetchError::Remote),
        ),
        (FetchState::Writing(bytes), Event::Written) => FetchState::Done(
            Ok(FetchOutcome::Downloaded(bytes)),
        ),
        (FetchState::Writing(_), Event::WriteFailed) => FetchState::Done(
            Err(FetchError::Storage),
        ),
        (s, _) => s,
    }
}

/// The operation a state asks the surrounding program to perform.
pub open spec fn action_of(s: FetchState) -> Action {
    match s {
        FetchState::EnsuringNamespace => Action::EnsureNamespace,
        FetchState::Probing => Action::ProbeEntry,
        FetchState::Opening => Action::OpenEntry,
        FetchState::Downloading => Action::Download,
        FetchState::Writing(_) => Action::Persist,
        FetchState::Done(_) => Action::Stop,
    }
}

/// The states a run passes through after `s`, handling the events in order.
pub open spec fn run_state(cache_enabled: bool, s: FetchState, evs: Seq<Event>) -> FetchState
    decreases evs.len(),
{
    if evs.len() == 0 {
        s
    } else {
        run_state(cache_enabled, next_state(cache_enabled, s, evs[0]), evs.drop_first())
    }
}

/// The actions a run asks for after `s`, handling the events in order.
pub open spec fn run_actions(cache_enabled: bool, s: FetchState, evs: Seq<Event>) -> Seq<Action>
    decreases evs.len(),
{
    if evs.len() == 0 {
        seq![]
    } else {
        seq![action_of(next_state(cache_enabled, s, evs[0]))] + run_actions(
            cache_enabled,
            next_state(cache_enabled, s, evs[0]),
            evs.drop_first(),
        )
    }
}

/// Law: with caching enabled, a fetch whose entry is reported present and
/// then opens is served from the cache, and no step of that run asks for a
/// download — so a second fetch of a URL whose first fetch succeeded issues
/// no second network call.
pub proof fn lemma_cache_hit_without_download()
    ensures
        ({
            let evs = seq![Event::NamespaceOk, Event::Probed(true), Event::Opened];
            let s0 = FetchState::EnsuringNamespace;
            &&& run_state(true, s0, evs) == FetchState::Done(Ok(FetchOutcome::FromCache))
            &&& run_actions(true, s0, evs) =~= seq![
                Action::ProbeEntry,
                Action::OpenEntry,
                Action::Stop,
            ]
            &&& forall|i: int|
                0 <= i < run_actions(true, s0, evs).len() ==> run_actions(true, s0, evs)[i]
                    != Action::Download
        }),
{
    let evs = seq![Event::NamespaceOk, Event::Probed(true), Event::Opened];
    let s0 = FetchState::EnsuringNamespace;
    let evs1 = evs.drop_first();
    let evs2 = evs1.drop_first();
    let evs3 = evs2.drop_first();
    assert(evs1 =~= seq![Event::Probed(true), Event::Opened]);
    assert(evs2 =~= seq![Event::Opened]);
    assert(evs3 =~= Seq::<Event>::empty());
    let s1 = next_state(true, s0, evs[0]);
    let s2 = next_state(true, s1, evs1[0]);
    let s3 = next_state(true, s2, evs2[0]);
    assert(s1 == FetchState::Probing);
    assert(s2 == FetchState::Opening);
    assert(s3 == FetchState::Done(Ok(FetchOutcome::FromCache)));
    reveal_with_fuel(run_state, 4);
    reveal_with_fuel(run_actions, 4);
    assert(run_state(true, s3, evs3) == s3);
    assert(run_state(true, s2, evs2) == s3);
    assert(run_state(true, s1, evs1) == s3);
    assert(run_state(true, s0, evs) == s3);
    assert(run_actions(true, s2, evs2) =~= seq![Action::Stop]);
    assert(run_actions(true, s1, evs1) =~= seq![Action::OpenEntry, Action::Stop]);
    assert(run_actions(true, s0, evs) =~= seq![
        Action::ProbeEntry,
        Action::OpenEntry,
        Action::Stop,
    ]);
}

/// Law: with caching disabled, the fetch asks for a download as soon as the
/// namespace directories stand — the entry is never probed, so a present
/// entry does not stop the network call — and a successful download is still
/// persisted at the entry path, overwriting whatever was there.
pub proof fn lemma_disabled_cache_always_downloads(bytes: Vec<u8>)
    ensures
        next_state(false, FetchState::EnsuringNamespace, Event::NamespaceOk)
            == FetchState::Downloading,
        ({
            let evs = seq![Event::NamespaceOk, Event::Fetched(bytes), Event::Written];
            let s0 = FetchState::EnsuringNamespace;
            &&& run_state(false, s0, evs) == FetchState::Done(
                Ok(FetchOutcome::Downloaded(bytes)),
            )
            &&& run_actions(false, s0, evs) =~= seq![
                Action::Download,
                Action::Persist,
                Action::Stop,
            ]
        }),
{
    let evs = seq![Event::NamespaceOk, Event::Fetched(bytes), Event::Written];
    let s0 = FetchState::EnsuringNamespace;
    let evs1 = evs.drop_first();
    let evs2 = evs1.drop_first();
    let evs3 = evs2.drop_first();
    assert(evs1 =~= seq![Event::Fetched(bytes), Event::Written]);
    assert(evs2 =~= seq![Event::Written]);
    assert(evs3 =~= Seq::<Event>::empty());
    let s1 = next_state(false, s0, evs[0]);
    let s2 = next_state(false, s1, evs1[0]);
    let s3 = next_state(false, s2, evs2[0]);
    assert(evs[0] == Event::NamespaceOk);
    assert(evs1[0] == Event::Fetched(bytes));
    assert(evs2[0] == Event::Written);
    assert(s1 == FetchState::Downloading);
    assert(s2 == FetchState::Writing(bytes));
    assert(s3 == FetchState::Done(Ok(FetchOutcome::Downloaded(bytes))));
    reveal_with_fuel(run_state, 4);
    reveal_with_fuel(run_actions, 4);
    assert(run_state(false, s3, evs3) == s3);
    assert(run_state(false, s2, evs2) == s3);
    assert(run_state(false, s1, evs1) == s3);
    assert(run_state(false, s0, evs) == s3);
    assert(run_actions(false, s2, evs2) =~= seq![Action::Stop]);
    assert(run_actions(false, s1, evs1) =~= seq![Action::Persist, Action::Stop]);
    assert(run_actions(false, s0, evs) =~= seq![Action::Download, Action::Persist, Action::Stop]);
}

/// Law: an entry that was reported present but then fails to open is treated
/// as a miss, not as an error — the fetch falls back to a fresh download
/// instead of finishing.
pub proof fn lemma_vanished_entry_falls_back(cache_enabled: bool)
    ensures
        next_state(cache_enabled, FetchState::Opening, Event::OpenFailed)
            == FetchState::Downloading,
        action_of(next_state(cache_enabled, FetchState::Opening, Event::OpenFailed))
            == Action::Download,
        !(next_state(cache_enabled, FetchState::Opening, Event::OpenFailed) is Done),
{
}

/// Law: each failure surfaces as its own error, and only then — a fetch
/// finishes `Storage` exactly when directory creation or the persist failed,
/// `Remote` exactly when the download failed, and never `Decode`, which only
/// a downstream decoder raises.
pub proof fn lemma_error_mapping(cache_enabled: bool, s: FetchState, ev: Event)
    requires
        awaits(s, ev),
    ensures
        next_state(cache_enabled, s, ev) == FetchState::Done(
            Err::<FetchOutcome, FetchError>(FetchError::Storage),
        ) <==> (ev == Event::NamespaceFailed || ev == Event::WriteFailed),
        next_state(cache_enabled, s, ev) == FetchState::Done(
            Err::<FetchOutcome, FetchError>(FetchError::Remote),
        ) <==> ev == Event::FetchFailed,
        next_state(cache_enabled, s, ev) != FetchState::Done(
            Err::<FetchOutcome, FetchError>(FetchError::Decode),
        ),
{
}

/// One fetch in progress: the request, the derived key and resolved entry
/// path, and the state of the run.
pub struct CachedFetcher {
    /// The URL being fetched.
    pub url: String,
    /// Whether an existing cache entry may satisfy this fetch.
    pub cache_enabled: bool,
    /// The cache key derived from the URL.
    pub key: String,
    /// The entry path the key resolves to under the store's root.
    pub path: String,
    /// Where the fetch stands.
    pub state: FetchState,
}

impl CachedFetcher {
    /// Begin a fetch: derive the key from the URL, resolve the entry path
    /// under the store's root, and ask for the namespace directories first.
    pub fn start(request: FetchRequest, store: &CacheStore) -> (r: (CachedFetcher, Action))
        ensures
            r.0.url == request.url,
            r.0.cache_enabled == request.cache_enabled,
            r.0.key@ == key_of(request.url@),
            r.0.path@ == path_of(store.cache_root@, key_of(request.url@)),
            r.0.state == FetchState::EnsuringNamespace,
            r.1 == Action::EnsureNamespace,
    {
        let key = KeyDeriver::derive(request.url.as_str());
        let path = store.resolve(key.as_str());
        let fetcher = CachedFetcher {
            url: request.url,
            cache_enabled: request.cache_enabled,
            key,
            path,
            state: FetchState::EnsuringNamespace,
        };
        (fetcher, Action::EnsureNamespace)
    }

    /// Handle the outcome of the awaited operation and answer with the next
    /// one. The request, key and path never change; the state moves exactly
    /// as `next_state` says.
    pub fn step(self, ev: Event) -> (r: (CachedFetcher, Action))
        requires
            awaits(self.state, ev),
        ensures
            r.0.url == self.url,
            r.0.cache_enabled == self.cache_enabled,
            r.0.key == self.key,
            r.0.path == self.path,
            r.0.state == next_state(self.cache_enabled, self.state, ev),
            r.1 == action_of(r.0.state),
    {
        let CachedFetcher { url, cache_enabled, key, path, state } = self;
        let next = match (state, ev) {
            (FetchState::EnsuringNamespace, Event::NamespaceOk) => if cache_enabled {
                FetchState::Probing
            } else {
                FetchState::Downloading
            },
            (FetchState::EnsuringNamespace, Event::NamespaceFailed) => FetchState::Done(
                Err(FetchError::Storage),
            ),
            (FetchState::Probing, Event::Probed(present)) => if present {
                FetchState::Opening
            } else {
                FetchState::Downloading
            },
            (FetchState::Opening, Event::Opened) => FetchState::Done(
                Ok(FetchOutcome::FromCache),
            ),
            (FetchState::Opening, Event::OpenFailed) => FetchState::Downloading,
            (FetchState::Downloading, Event::Fetched(bytes)) => FetchState::Writing(bytes),
            (FetchState::Downloading, Event::FetchFailed) => FetchState::Done(
                Err(FetchError::Remote),
            ),
            (FetchState::Writing(bytes), Event::Written) => FetchState::Done(
                Ok(FetchOutcome::Downloaded(bytes)),
            ),
            (FetchState::Writing(_), Event::WriteFailed) => FetchState::Done(
                Err(FetchError::Storage),
            ),
            _ => vstd::pervasive::unreached(),
        };
        let action = match &next {
            FetchState::EnsuringNamespace => Action::EnsureNamespace,
            FetchState::Probing => Action::ProbeEntry,
            FetchState::Opening => Action::OpenEntry,
            FetchState::Downloading => Action::Download,
            FetchState::Writing(_) => Action::Persist,
            FetchState::Done(_) => Action::Stop,
        };
        (CachedFetcher { url, cache_enabled, key, path, state: next }, action)
    }

    /// The bytes awaiting persistence, for the `Persist` action.
    pub fn pending_bytes(&self) -> (b: &Vec<u8>)
        requires
            self.state is Writing,
        ensures
            self.state == FetchState::Writing(*b),
    {
        match &self.state {
            FetchState::Writing(bytes) => bytes,
            _ => vstd::pervasive::unreached(),
        }
    }

    /// The result of a finished fetch.
    pub fn result(self) -> (r: Result<FetchOutcome, FetchError>)
        requires
            self.state is Done,
        ensures
            self.state == FetchState::Done(r),
    {
        match self.state {
            FetchState::Done(r) => r,
            _ => vstd::pervasive::unreached(),
        }
    }
}

} // verus!
