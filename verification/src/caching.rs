//! Process-local "what is already in the store" cache.
//!
//! The store is authoritative; this cache remembers facts that were confirmed during the
//! process's lifetime: a key was uploaded, a HEAD or a LIST saw it, an upload of it is in
//! flight. Facts live in a bounded least-recently-used map.
//!
//! Every fact-removing operation (delete, versioned write) advances an epoch. An upload or
//! a HEAD takes the epoch before it talks to the store and memoizes its outcome only if the
//! epoch has not moved, so a completion that raced a delete cannot bring the key back.
//!
//! The fact that an upload is in flight may be evicted while the upload runs. A completion
//! is memoized only over such a fact, and takes away only its own, so that one which finds
//! its fact gone changes nothing.
//!
//! The cache itself performs no I/O. A caller asks what to do, performs it, and hands the
//! outcome back.

use lru::LruCache;
use std::num::NonZeroUsize;
use vstd::prelude::*;

use crate::compression::CompressionAlgo;
use crate::error::{self, ObjectStoreError};
use crate::lru_model;

verus! {

/// Number of facts kept by default.
pub const DEFAULT_KNOWN_CAPACITY: usize = 262_144;

/// Bytes of address space that a table for one fact may take, its spare places included.
pub const RESERVED_PER_FACT: usize = 64;

/// A table for `capacity` facts fits the address space.
pub open spec fn can_reserve(capacity: usize) -> bool {
    capacity * RESERVED_PER_FACT <= isize::MAX
}

/// What an upload reported: the original size, the compressed size if a compressor ran, and
/// which one it was.
#[derive(Debug, Clone, Copy, PartialEq, Eq)]
pub struct UploadOutcome {
    pub uncompressed: u64,
    pub compressed: Option<u64>,
    pub algo: Option<CompressionAlgo>,
}

/// What is known about one key.
#[derive(Debug, Clone, Copy, PartialEq, Eq)]
pub enum StorageState {
    /// A LIST or a HEAD confirmed presence; sizes are unknown.
    Probed,
    /// This process uploaded the key and keeps what the upload reported.
    Uploaded { outcome: UploadOutcome },
    /// An upload is running; `flight` identifies it to the caller.
    InFlight { flight: u64 },
}

/// The abstract cache: facts most recently used first, room, and invalidation epoch.
pub struct CacheView {
    pub entries: Seq<(Seq<char>, StorageState)>,
    pub cap: nat,
    pub epoch: u64,
}

impl CacheView {
    /// The fact about `key`.
    pub open spec fn fact(self, key: Seq<char>) -> Option<StorageState> {
        lru_model::lookup(self.entries, key)
    }

    /// No key twice, and never more facts than there is room for.
    pub open spec fn legal(self) -> bool {
        lru_model::bounded(self.entries, self.cap)
    }

    /// After a use of `key`: its fact is the most recent one.
    pub open spec fn used(self, key: Seq<char>) -> CacheView {
        CacheView { entries: lru_model::promoted(self.entries, key), ..self }
    }

    /// After storing a fact.
    pub open spec fn remembering(self, key: Seq<char>, fact: StorageState) -> CacheView {
        CacheView { entries: lru_model::stored(self.entries, self.cap, key, fact), ..self }
    }

    /// After dropping a fact.
    pub open spec fn forgetting(self, key: Seq<char>) -> CacheView {
        CacheView { entries: lru_model::without(self.entries, key), ..self }
    }

    /// After dropping the fact about `key` if it says that the upload `flight` is in flight;
    /// any other fact counts as used.
    pub open spec fn landing(self, key: Seq<char>, flight: u64) -> CacheView {
        if self.fact(key) == Some(StorageState::InFlight { flight }) {
            self.forgetting(key)
        } else {
            self.used(key)
        }
    }

    /// After an operation that made the fact about `key` obsolete.
    pub open spec fn invalidating(self, key: Seq<char>) -> CacheView {
        CacheView { entries: lru_model::without(self.entries, key), epoch: next_epoch(self.epoch), ..self }
    }

    /// After the upload `flight` that was started at epoch `at` came back.
    pub open spec fn completing(
        self,
        key: Seq<char>,
        at: u64,
        flight: u64,
        outcome: Option<UploadOutcome>,
    ) -> CacheView {
        match outcome {
            Some(outcome) if self.epoch == at && in_flight(self.fact(key)) => self.remembering(
                key,
                StorageState::Uploaded { outcome },
            ),
            _ => self.landing(key, flight),
        }
    }

    /// After a HEAD that was started at epoch `at` came back.
    pub open spec fn probed(self, key: Seq<char>, at: u64, present: bool) -> CacheView {
        if present && self.epoch == at && self.fact(key) is None {
            self.remembering(key, StorageState::Probed)
        } else {
            self
        }
    }

    /// After `key` was seen in a listing.
    pub open spec fn listing(self, key: Seq<char>) -> CacheView {
        if self.fact(key) is None {
            self.remembering(key, StorageState::Probed)
        } else {
            self
        }
    }

    /// After all of `keys` were seen in a listing, in order.
    pub open spec fn listing_all(self, keys: Seq<Seq<char>>) -> CacheView
        decreases keys.len(),
    {
        if keys.len() == 0 {
            self
        } else {
            self.listing_all(keys.drop_last()).listing(keys.last())
        }
    }

    /// How many of `keys` were vacant when their turn came.
    pub open spec fn seeded(self, keys: Seq<Seq<char>>) -> nat
        decreases keys.len(),
    {
        if keys.len() == 0 {
            0
        } else {
            let before = self.listing_all(keys.drop_last());
            self.seeded(keys.drop_last()) + if before.fact(keys.last()) is None {
                1nat
            } else {
                0nat
            }
        }
    }
}

/// The fact says that an upload is in flight.
pub open spec fn in_flight(fact: Option<StorageState>) -> bool {
    fact matches Some(StorageState::InFlight { .. })
}

/// The epoch that follows `e`; after the largest one the count starts over.
pub open spec fn next_epoch(e: u64) -> u64 {
    if e == u64::MAX {
        0
    } else {
        (e + 1) as u64
    }
}

/// The views of a list of keys.
pub open spec fn key_views(keys: Seq<String>) -> Seq<Seq<char>> {
    keys.map_values(|k: String| k@)
}

/// `lru::LruCache`, a bounded map with a recency order.
#[verifier::external_type_specification]
#[verifier::external_body]
#[verifier::reject_recursive_types(K)]
#[verifier::reject_recursive_types(V)]
#[verifier::reject_recursive_types(S)]
pub struct ExLruCache<K, V, S>(lru::LruCache<K, V, S>);

/// The hasher type that `lru::LruCache` uses by default.
#[verifier::external_type_specification]
#[verifier::external_body]
pub struct ExLruDefaultHasher(lru::DefaultHasher);

/// The entries of an `lru::LruCache`, most recently used first.
pub uninterp spec fn lru_entries(cache: &LruCache<String, StorageState>) -> Seq<
    (Seq<char>, StorageState),
>;

/// The number of entries an `lru::LruCache` was made for.
pub uninterp spec fn lru_capacity(cache: &LruCache<String, StorageState>) -> nat;

/// `lru::LruCache::new`: an empty cache with room for `cap` entries. The room is reserved at
/// once, and a table that does not fit the address space panics, hence the upper bound.
#[verifier::external_body]
fn lru_new(cap: usize) -> (cache: LruCache<String, StorageState>)
    requires
        1 <= cap,
        can_reserve(cap),
    ensures
        lru_entries(&cache).len() == 0,
        lru_capacity(&cache) == cap,
{
    LruCache::new(NonZeroUsize::new(cap).unwrap())
}

/// `lru::LruCache::get`: the value under `key`, whose entry becomes the most recent one.
#[verifier::external_body]
fn lru_get(cache: &mut LruCache<String, StorageState>, key: &str) -> (r: Option<StorageState>)
    ensures
        r == lru_model::lookup(lru_entries(old(cache)), key@),
        lru_entries(final(cache)) == lru_model::promoted(lru_entries(old(cache)), key@),
        lru_capacity(final(cache)) == lru_capacity(old(cache)),
{
    cache.get(key).copied()
}

/// `lru::LruCache::peek`: the value under `key`; the order stays.
#[verifier::external_body]
fn lru_peek(cache: &LruCache<String, StorageState>, key: &str) -> (r: Option<StorageState>)
    ensures
        r == lru_model::lookup(lru_entries(cache), key@),
{
    cache.peek(key).copied()
}

/// `lru::LruCache::put`: stores the value as the most recent entry and returns the value it
/// replaced; a new key pushes the least recent entry out of a full cache.
#[verifier::external_body]
fn lru_put(cache: &mut LruCache<String, StorageState>, key: String, value: StorageState) -> (r:
    Option<StorageState>)
    ensures
        r == lru_model::lookup(lru_entries(old(cache)), key@),
        lru_entries(final(cache)) == lru_model::stored(
            lru_entries(old(cache)),
            lru_capacity(old(cache)),
            key@,
            value,
        ),
        lru_capacity(final(cache)) == lru_capacity(old(cache)),
{
    cache.put(key, value)
}

/// `lru::LruCache::pop`: removes and returns the value under `key`; the order of the other
/// entries stays.
#[verifier::external_body]
fn lru_pop(cache: &mut LruCache<String, StorageState>, key: &str) -> (r: Option<StorageState>)
    ensures
        r == lru_model::lookup(lru_entries(old(cache)), key@),
        lru_entries(final(cache)) == lru_model::without(lru_entries(old(cache)), key@),
        lru_capacity(final(cache)) == lru_capacity(old(cache)),
{
    cache.pop(key)
}

/// What to do about a requested upload.
#[derive(Debug, Clone, Copy, PartialEq, Eq)]
pub enum UploadLookup {
    /// The key is there already; report this.
    Hit(UploadOutcome),
    /// The same key is being uploaded; wait for that upload.
    Join { flight: u64 },
    /// Nothing is known; upload.
    Miss,
}

/// What became of the attempt to register an upload.
#[derive(Debug, Clone, Copy, PartialEq, Eq)]
pub enum UploadInstall {
    /// The key appeared in the meantime; report this and drop the upload.
    Hit(UploadOutcome),
    /// Another upload of the key is registered; wait for that one.
    Join { flight: u64 },
    /// The upload is registered. Hand `epoch` back when it completes.
    Installed { epoch: u64 },
}

/// What to do about a presence query.
#[derive(Debug, Clone, Copy, PartialEq, Eq)]
pub enum HeadLookup {
    /// The key is known to be present.
    Hit,
    /// The key is being uploaded; wait for that upload.
    Join { flight: u64 },
    /// Ask the store.
    Miss,
}

/// What an upload of `len` bytes is told about a fact; `None` when it has to go ahead.
pub open spec fn upload_answer(fact: Option<StorageState>, len: u64) -> UploadLookup {
    match fact {
        Some(StorageState::Uploaded { outcome }) => UploadLookup::Hit(outcome),
        Some(StorageState::Probed) => UploadLookup::Hit(
            UploadOutcome { uncompressed: len, compressed: None, algo: None },
        ),
        Some(StorageState::InFlight { flight }) => UploadLookup::Join { flight },
        None => UploadLookup::Miss,
    }
}

/// As `upload_answer` for an upload that needs the stored size: mere presence is a miss.
pub open spec fn zerocopy_answer(fact: Option<StorageState>) -> UploadLookup {
    match fact {
        Some(StorageState::Probed) => UploadLookup::Miss,
        other => upload_answer(other, 0),
    }
}

/// What a presence query is told about a fact.
pub open spec fn head_answer(fact: Option<StorageState>) -> HeadLookup {
    match fact {
        Some(StorageState::Probed) => HeadLookup::Hit,
        Some(StorageState::Uploaded { .. }) => HeadLookup::Hit,
        Some(StorageState::InFlight { flight }) => HeadLookup::Join { flight },
        None => HeadLookup::Miss,
    }
}

/// The registration result that belongs to an upload answer.
pub open spec fn install_answer(answer: UploadLookup, epoch: u64) -> UploadInstall {
    match answer {
        UploadLookup::Hit(outcome) => UploadInstall::Hit(outcome),
        UploadLookup::Join { flight } => UploadInstall::Join { flight },
        UploadLookup::Miss => UploadInstall::Installed { epoch },
    }
}

/// What callers of an upload see of its result: the outcome, or the failure's text under
/// the catch-all variant.
pub open spec fn shared_result(
    result: Result<UploadOutcome, ObjectStoreError>,
    seen: Result<UploadOutcome, ObjectStoreError>,
) -> bool {
    match result {
        Ok(outcome) => seen == Ok::<UploadOutcome, ObjectStoreError>(outcome),
        Err(e) => seen matches Err(ObjectStoreError::Other(m)) && m@ == error::error_text(e),
    }
}

/// The outcome of an upload result, if it has one.
pub open spec fn outcome_of(result: Result<UploadOutcome, ObjectStoreError>) -> Option<
    UploadOutcome,
> {
    match result {
        Ok(outcome) => Some(outcome),
        Err(_) => None,
    }
}

/// The result that everyone waiting for one upload receives.
pub fn join_upload(result: Result<UploadOutcome, ObjectStoreError>) -> (r: Result<
    UploadOutcome,
    ObjectStoreError,
>)
    ensures
        shared_result(result, r),
{
    match result {
        Ok(outcome) => Ok(outcome),
        Err(e) => Err(ObjectStoreError::Other(e.text())),
    }
}

/// What a presence query does once the upload it waited for has ended: a success means the
/// key is present, a failure means the store has to be asked.
pub fn head_after_join(uploaded: bool) -> (r: HeadLookup)
    ensures
        r == if uploaded {
            HeadLookup::Hit
        } else {
            HeadLookup::Miss
        },
{
    if uploaded {
        HeadLookup::Hit
    } else {
        HeadLookup::Miss
    }
}

/// The number of bytes an upload put on the wire.
pub fn transferred_bytes(outcome: &UploadOutcome) -> (r: u64)
    ensures
        r == match outcome.compressed {
            Some(n) => n,
            None => outcome.uncompressed,
        },
{
    match outcome.compressed {
        Some(n) => n,
        None => outcome.uncompressed,
    }
}

/// Memo of upload and presence facts about one named backend.
pub struct CachingObjectStoreBackend {
    name: String,
    known: LruCache<String, StorageState>,
    epoch: u64,
}

impl View for CachingObjectStoreBackend {
    type V = CacheView;

    closed spec fn view(&self) -> CacheView {
        CacheView {
            entries: lru_entries(&self.known),
            cap: lru_capacity(&self.known),
            epoch: self.epoch,
        }
    }
}

impl CachingObjectStoreBackend {
    /// The backend's name.
    pub closed spec fn label(&self) -> Seq<char> {
        self.name@
    }

    /// An empty cache with the default capacity.
    pub fn new(name: String) -> (r: Self)
        ensures
            r.label() == name@,
            r@.legal(),
            r@.entries.len() == 0,
            r@.cap == DEFAULT_KNOWN_CAPACITY,
            r@.epoch == 0,
    {
        CachingObjectStoreBackend::with_capacity(name, DEFAULT_KNOWN_CAPACITY)
    }

    /// An empty cache with room for `capacity` facts, or for one if `capacity` is zero.
    pub fn with_capacity(name: String, capacity: usize) -> (r: Self)
        requires
            can_reserve(capacity),
        ensures
            r.label() == name@,
            r@.legal(),
            r@.entries.len() == 0,
            r@.cap == if capacity == 0 {
                1
            } else {
                capacity as nat
            },
            r@.epoch == 0,
    {
        let cap: usize = if capacity == 0 {
            1
        } else {
            capacity
        };
        CachingObjectStoreBackend { name, known: lru_new(cap), epoch: 0 }
    }

    /// The backend's name.
    pub fn name(&self) -> (r: &str)
        ensures
            r@ == self.label(),
    {
        self.name.as_str()
    }

    /// The fact about `key`, without counting as a use.
    pub fn peek(&self, key: &str) -> (r: Option<StorageState>)
        ensures
            r == self@.fact(key@),
    {
        lru_peek(&self.known, key)
    }

    /// First look at an upload of `len` bytes.
    pub fn lookup_upload(&mut self, key: &str, len: u64) -> (r: UploadLookup)
        requires
            old(self)@.legal(),
        ensures
            final(self)@ == old(self)@.used(key@),
            final(self)@.legal(),
            final(self).label() == old(self).label(),
            r == upload_answer(old(self)@.fact(key@), len),
    {
        proof {
            lru_model::lemma_promoted(self@.entries, self@.cap, key@);
        }
        match lru_get(&mut self.known, key) {
            Some(StorageState::Uploaded { outcome }) => UploadLookup::Hit(outcome),
            Some(StorageState::Probed) => UploadLookup::Hit(
                UploadOutcome { uncompressed: len, compressed: None, algo: None },
            ),
            Some(StorageState::InFlight { flight }) => UploadLookup::Join { flight },
            None => UploadLookup::Miss,
        }
    }

    /// Registers the upload `flight` of `len` bytes, unless the key has become known.
    pub fn install_upload(&mut self, key: &str, len: u64, flight: u64) -> (r: UploadInstall)
        requires
            old(self)@.legal(),
        ensures
            final(self)@ == (if old(self)@.fact(key@) is None {
                old(self)@.remembering(key@, StorageState::InFlight { flight })
            } else {
                old(self)@.used(key@)
            }),
            final(self)@.legal(),
            final(self).label() == old(self).label(),
            r == install_answer(upload_answer(old(self)@.fact(key@), len), old(self)@.epoch),
    {
        proof {
            lru_model::lemma_promoted(self@.entries, self@.cap, key@);
            lru_model::lemma_stored(self@.entries, self@.cap, key@, StorageState::InFlight { flight });
        }
        match lru_get(&mut self.known, key) {
            Some(StorageState::Uploaded { outcome }) => UploadInstall::Hit(outcome),
            Some(StorageState::Probed) => UploadInstall::Hit(
                UploadOutcome { uncompressed: len, compressed: None, algo: None },
            ),
            Some(StorageState::InFlight { flight: running }) => UploadInstall::Join {
                flight: running,
            },
            None => {
                let _ = lru_put(
                    &mut self.known,
                    key.to_owned(),
                    StorageState::InFlight { flight },
                );
                UploadInstall::Installed { epoch: self.epoch }
            },
        }
    }

    /// Drops the fact that the upload `flight` of `key` is in flight, if that is what is known.
    fn land(&mut self, key: &str, flight: u64)
        requires
            old(self)@.legal(),
        ensures
            final(self)@ == old(self)@.landing(key@, flight),
            final(self)@.legal(),
            final(self).label() == old(self).label(),
    {
        proof {
            lru_model::lemma_promoted(self@.entries, self@.cap, key@);
            lru_model::lemma_removed(self@.entries, self@.cap, key@);
            lemma_without_promoted(self@.entries, key@);
        }
        match lru_get(&mut self.known, key) {
            Some(StorageState::InFlight { flight: known }) => {
                if known == flight {
                    let _ = lru_pop(&mut self.known, key);
                }
            },
            _ => {},
        }
    }

    /// Takes the result of the upload `flight` that was registered at `epoch`.
    ///
    /// A success is memoized only if nothing was invalidated meanwhile and the key is still
    /// known to be in flight; otherwise, and after a failure, this upload's own in-flight
    /// fact is dropped.
    pub fn finish_upload(
        &mut self,
        key: &str,
        epoch: u64,
        flight: u64,
        result: Result<UploadOutcome, ObjectStoreError>,
    ) -> (r: Result<UploadOutcome, ObjectStoreError>)
        requires
            old(self)@.legal(),
        ensures
            final(self)@ == old(self)@.completing(key@, epoch, flight, outcome_of(result)),
            final(self)@.legal(),
            final(self).label() == old(self).label(),
            shared_result(result, r),
    {
        match result {
            Ok(outcome) => {
                let running = match lru_peek(&self.known, key) {
                    Some(StorageState::InFlight { .. }) => true,
                    _ => false,
                };
                if self.epoch == epoch && running {
                    let fact = StorageState::Uploaded { outcome };
                    proof {
                        lru_model::lemma_stored(self@.entries, self@.cap, key@, fact);
                    }
                    let _ = lru_put(&mut self.known, key.to_owned(), fact);
                } else {
                    self.land(key, flight);
                }
                Ok(outcome)
            },
            Err(e) => {
                self.land(key, flight);
                Err(ObjectStoreError::Other(e.text()))
            },
        }
    }

    /// Gives up the registered upload `flight`, whose caller went away.
    pub fn cancel_upload(&mut self, key: &str, flight: u64)
        requires
            old(self)@.legal(),
        ensures
            final(self)@ == old(self)@.landing(key@, flight),
            final(self)@.legal(),
            final(self).label() == old(self).label(),
    {
        self.land(key, flight);
    }

    /// First look at an upload that streams a file. A probed key is a miss: its size is
    /// unknown.
    pub fn lookup_zerocopy(&mut self, key: &str) -> (r: UploadLookup)
        requires
            old(self)@.legal(),
        ensures
            final(self)@ == old(self)@.used(key@),
            final(self)@.legal(),
            final(self).label() == old(self).label(),
            r == zerocopy_answer(old(self)@.fact(key@)),
    {
        proof {
            lru_model::lemma_promoted(self@.entries, self@.cap, key@);
        }
        match lru_get(&mut self.known, key) {
            Some(StorageState::Uploaded { outcome }) => UploadLookup::Hit(outcome),
            Some(StorageState::InFlight { flight }) => UploadLookup::Join { flight },
            Some(StorageState::Probed) | None => UploadLookup::Miss,
        }
    }

    /// Registers the streaming upload `flight`, unless the key has become known with a size.
    pub fn install_zerocopy(&mut self, key: &str, flight: u64) -> (r: UploadInstall)
        requires
            old(self)@.legal(),
        ensures
            final(self)@ == (if zerocopy_answer(old(self)@.fact(key@)) is Miss {
                old(self)@.remembering(key@, StorageState::InFlight { flight })
            } else {
                old(self)@.used(key@)
            }),
            final(self)@.legal(),
            final(self).label() == old(self).label(),
            r == install_answer(zerocopy_answer(old(self)@.fact(key@)), old(self)@.epoch),
    {
        proof {
            lru_model::lemma_promoted(self@.entries, self@.cap, key@);
            lru_model::lemma_stored(self@.entries, self@.cap, key@, StorageState::InFlight { flight });
            lemma_without_promoted(self@.entries, key@);
        }
        match lru_get(&mut self.known, key) {
            Some(StorageState::Uploaded { outcome }) => UploadInstall::Hit(outcome),
            Some(StorageState::InFlight { flight: running }) => UploadInstall::Join {
                flight: running,
            },
            Some(StorageState::Probed) | None => {
                let _ = lru_put(
                    &mut self.known,
                    key.to_owned(),
                    StorageState::InFlight { flight },
                );
                UploadInstall::Installed { epoch: self.epoch }
            },
        }
    }

    /// Takes the result of the streaming upload `flight`: the size on success.
    pub fn finish_zerocopy(
        &mut self,
        key: &str,
        epoch: u64,
        flight: u64,
        result: Result<u64, ObjectStoreError>,
    ) -> (r: Result<u64, ObjectStoreError>)
        requires
            old(self)@.legal(),
        ensures
            final(self)@ == old(self)@.completing(
                key@,
                epoch,
                flight,
                match result {
                    Ok(size) => Some(
                        UploadOutcome { uncompressed: size, compressed: None, algo: None },
                    ),
                    Err(_) => None,
                },
            ),
            final(self)@.legal(),
            final(self).label() == old(self).label(),
            result matches Ok(size) ==> (r matches Ok(n) && n == size),
            result matches Err(e) ==> (r matches Err(ObjectStoreError::Other(m)) && m@
                == error::error_text(e)),
    {
        let full = match result {
            Ok(size) => Ok(UploadOutcome { uncompressed: size, compressed: None, algo: None }),
            Err(e) => Err(e),
        };
        match self.finish_upload(key, epoch, flight, full) {
            Ok(outcome) => Ok(outcome.uncompressed),
            Err(e) => Err(e),
        }
    }

    /// First look at a presence query.
    pub fn lookup_head(&mut self, key: &str) -> (r: HeadLookup)
        requires
            old(self)@.legal(),
        ensures
            final(self)@ == old(self)@.used(key@),
            final(self)@.legal(),
            final(self).label() == old(self).label(),
            r == head_answer(old(self)@.fact(key@)),
    {
        proof {
            lru_model::lemma_promoted(self@.entries, self@.cap, key@);
        }
        match lru_get(&mut self.known, key) {
            Some(StorageState::Probed) => HeadLookup::Hit,
            Some(StorageState::Uploaded { .. }) => HeadLookup::Hit,
            Some(StorageState::InFlight { flight }) => HeadLookup::Join { flight },
            None => HeadLookup::Miss,
        }
    }

    /// The current invalidation epoch, to be taken before the store is asked.
    pub fn current_epoch(&self) -> (r: u64)
        ensures
            r == self@.epoch,
    {
        self.epoch
    }

    /// Takes the answer of a HEAD that was started at `epoch`. Only a positive answer is
    /// memoized, only if nothing was invalidated meanwhile, and only into a vacant slot.
    pub fn finish_head(
        &mut self,
        key: &str,
        epoch: u64,
        result: Result<bool, ObjectStoreError>,
    ) -> (r: Result<bool, ObjectStoreError>)
        requires
            old(self)@.legal(),
        ensures
            final(self)@ == old(self)@.probed(
                key@,
                epoch,
                result == Ok::<bool, ObjectStoreError>(true),
            ),
            final(self)@.legal(),
            final(self).label() == old(self).label(),
            r == result,
    {
        match result {
            Ok(present) => {
                if present && self.epoch == epoch && lru_peek(&self.known, key).is_none() {
                    proof {
                        lru_model::lemma_stored(self@.entries, self@.cap, key@, StorageState::Probed);
                    }
                    let _ = lru_put(&mut self.known, key.to_owned(), StorageState::Probed);
                }
                Ok(present)
            },
            Err(e) => Err(e),
        }
    }

    /// Records a listing: every listed key without a fact becomes a probed one. Returns how
    /// many did.
    pub fn warmup(&mut self, keys: &Vec<String>) -> (seeded: usize)
        requires
            old(self)@.legal(),
        ensures
            final(self)@ == old(self)@.listing_all(key_views(keys@)),
            final(self)@.legal(),
            final(self).label() == old(self).label(),
            seeded == old(self)@.seeded(key_views(keys@)),
    {
        let mut seeded: usize = 0;
        let mut i: usize = 0;
        let ghost start = self@;
        let ghost views = key_views(keys@);
        proof {
            assert(views.take(0) =~= Seq::<Seq<char>>::empty());
        }
        while i < keys.len()
            invariant
                i <= keys@.len(),
                views == key_views(keys@),
                self@.legal(),
                self.label() == old(self).label(),
                self@ == start.listing_all(views.take(i as int)),
                seeded == start.seeded(views.take(i as int)),
                seeded <= i,
            decreases keys@.len() - i,
        {
            let key = &keys[i];
            proof {
                let next = views.take(i + 1);
                assert(next.drop_last() =~= views.take(i as int));
                assert(next.last() == key@);
                lru_model::lemma_stored(self@.entries, self@.cap, key@, StorageState::Probed);
            }
            if lru_peek(&self.known, key.as_str()).is_none() {
                let _ = lru_put(&mut self.known, key.clone(), StorageState::Probed);
                seeded += 1;
            }
            i += 1;
        }
        proof {
            assert(views.take(i as int) =~= views);
        }
        seeded
    }

    /// Removes the fact about `key` and advances the epoch.
    fn invalidate(&mut self, key: &str)
        requires
            old(self)@.legal(),
        ensures
            final(self)@ == old(self)@.invalidating(key@),
            final(self)@.legal(),
            final(self).label() == old(self).label(),
    {
        proof {
            lru_model::lemma_removed(self@.entries, self@.cap, key@);
        }
        self.epoch = if self.epoch == u64::MAX {
            0
        } else {
            self.epoch + 1
        };
        let _ = lru_pop(&mut self.known, key);
    }

    /// Takes the result of a delete. A failed delete changes nothing.
    pub fn finish_delete(&mut self, key: &str, result: Result<(), ObjectStoreError>) -> (r: Result<
        (),
        ObjectStoreError,
    >)
        requires
            old(self)@.legal(),
        ensures
            final(self)@ == (if result is Ok {
                old(self)@.invalidating(key@)
            } else {
                old(self)@
            }),
            final(self)@.legal(),
            final(self).label() == old(self).label(),
            r == result,
    {
        if result.is_ok() {
            self.invalidate(key);
        }
        result
    }

    /// Takes the result of a versioned write. The fact is obsolete whether or not the write
    /// succeeded.
    pub fn finish_versioned(
        &mut self,
        key: &str,
        result: Result<(), ObjectStoreError>,
    ) -> (r: Result<(), ObjectStoreError>)
        requires
            old(self)@.legal(),
        ensures
            final(self)@ == old(self)@.invalidating(key@),
            final(self)@.legal(),
            final(self).label() == old(self).label(),
            r == result,
    {
        self.invalidate(key);
        result
    }
}

/// Removing a key that was just used leaves what removing it outright leaves.
proof fn lemma_without_promoted(e: Seq<(Seq<char>, StorageState)>, key: Seq<char>)
    ensures
        lru_model::without(lru_model::promoted(e, key), key) == lru_model::without(e, key),
        lru_model::lookup(lru_model::promoted(e, key), key) == lru_model::lookup(e, key),
{
    let w = lru_model::without(e, key);
    lru_model::lemma_without(e, key);
    match lru_model::lookup(e, key) {
        Some(v) => {
            let p = lru_model::promoted(e, key);
            assert(p[0] == (key, v));
            assert(p.drop_first() =~= w);
            lru_model::lemma_without(w, key);
        },
        None => {},
    }
}

} // verus!
