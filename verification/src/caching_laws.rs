//! Laws of the fact cache, for every state and every interleaving of its operations.

use vstd::prelude::*;

use crate::caching::{self, CacheView, HeadLookup, StorageState, UploadLookup, UploadOutcome};
use crate::lru_model;

verus! {

/// One operation on the fact cache.
pub enum CacheStep {
    /// Any of the lookups.
    Lookup { key: Seq<char> },
    /// Registration of an upload.
    InstallUpload { key: Seq<char>, flight: u64 },
    /// Registration of a streaming upload.
    InstallZerocopy { key: Seq<char>, flight: u64 },
    /// Completion of the upload `flight` that was registered at epoch `at`.
    Complete { key: Seq<char>, at: u64, flight: u64, outcome: Option<UploadOutcome> },
    /// The caller of the upload `flight` went away.
    Cancel { key: Seq<char>, flight: u64 },
    /// Answer of a HEAD that was started at epoch `at`.
    Head { key: Seq<char>, at: u64, present: bool },
    /// A listing.
    Warmup { keys: Seq<Seq<char>> },
    /// A successful delete or a versioned write.
    Invalidate { key: Seq<char> },
}

/// The cache after one operation.
pub open spec fn step(s: CacheView, op: CacheStep) -> CacheView {
    match op {
        CacheStep::Lookup { key } => s.used(key),
        CacheStep::InstallUpload { key, flight } => if s.fact(key) is None {
            s.remembering(key, StorageState::InFlight { flight })
        } else {
            s.used(key)
        },
        CacheStep::InstallZerocopy { key, flight } => if caching::zerocopy_answer(
            s.fact(key),
        ) is Miss {
            s.remembering(key, StorageState::InFlight { flight })
        } else {
            s.used(key)
        },
        CacheStep::Complete { key, at, flight, outcome } => s.completing(key, at, flight, outcome),
        CacheStep::Cancel { key, flight } => s.landing(key, flight),
        CacheStep::Head { key, at, present } => s.probed(key, at, present),
        CacheStep::Warmup { keys } => s.listing_all(keys),
        CacheStep::Invalidate { key } => s.invalidating(key),
    }
}

/// The cache after a sequence of operations.
pub open spec fn run(s: CacheView, ops: Seq<CacheStep>) -> CacheView
    decreases ops.len(),
{
    if ops.len() == 0 {
        s
    } else {
        step(run(s, ops.drop_last()), ops.last())
    }
}

/// How many of the operations invalidate.
pub open spec fn invalidations(ops: Seq<CacheStep>) -> nat
    decreases ops.len(),
{
    if ops.len() == 0 {
        0
    } else {
        invalidations(ops.drop_last()) + if ops.last() is Invalidate {
            1nat
        } else {
            0nat
        }
    }
}

/// Listings keep a legal cache legal and the epoch where it is.
proof fn lemma_listing_all(s: CacheView, keys: Seq<Seq<char>>)
    requires
        s.legal(),
    ensures
        s.listing_all(keys).legal(),
        s.listing_all(keys).epoch == s.epoch,
        s.listing_all(keys).cap == s.cap,
        s.listing_all(keys).entries.len() <= s.entries.len() + keys.len(),
    decreases keys.len(),
{
    if keys.len() > 0 {
        let t = s.listing_all(keys.drop_last());
        lemma_listing_all(s, keys.drop_last());
        lru_model::lemma_stored(t.entries, t.cap, keys.last(), StorageState::Probed);
    }
}

/// Every operation keeps a legal cache legal and its room the same.
pub proof fn law_step_keeps_legal(s: CacheView, op: CacheStep)
    requires
        s.legal(),
    ensures
        step(s, op).legal(),
        step(s, op).cap == s.cap,
        step(s, op).epoch == if op is Invalidate {
            caching::next_epoch(s.epoch)
        } else {
            s.epoch
        },
{
    match op {
        CacheStep::Lookup { key } => lru_model::lemma_promoted(s.entries, s.cap, key),
        CacheStep::InstallUpload { key, flight } => {
            lru_model::lemma_promoted(s.entries, s.cap, key);
            lru_model::lemma_stored(s.entries, s.cap, key, StorageState::InFlight { flight });
        },
        CacheStep::InstallZerocopy { key, flight } => {
            lru_model::lemma_promoted(s.entries, s.cap, key);
            lru_model::lemma_stored(s.entries, s.cap, key, StorageState::InFlight { flight });
        },
        CacheStep::Complete { key, at, flight, outcome } => {
            lru_model::lemma_promoted(s.entries, s.cap, key);
            lru_model::lemma_removed(s.entries, s.cap, key);
            if outcome is Some {
                let outcome = outcome.unwrap();
                lru_model::lemma_stored(s.entries, s.cap, key, StorageState::Uploaded { outcome });
            }
        },
        CacheStep::Cancel { key, flight } => {
            lru_model::lemma_promoted(s.entries, s.cap, key);
            lru_model::lemma_removed(s.entries, s.cap, key);
        },
        CacheStep::Head { key, at, present } => {
            lru_model::lemma_stored(s.entries, s.cap, key, StorageState::Probed);
        },
        CacheStep::Warmup { keys } => lemma_listing_all(s, keys),
        CacheStep::Invalidate { key } => lru_model::lemma_removed(s.entries, s.cap, key),
    }
}

/// Whatever happens, no key is held twice and never more facts than there is room for; the
/// epoch advances once per invalidation.
pub proof fn law_run_keeps_legal(s: CacheView, ops: Seq<CacheStep>)
    requires
        s.legal(),
    ensures
        run(s, ops).legal(),
        run(s, ops).cap == s.cap,
        run(s, ops).entries.len() <= s.cap,
        run(s, ops).epoch == (s.epoch + invalidations(ops)) % 0x1_0000_0000_0000_0000,
    decreases ops.len(),
{
    if ops.len() > 0 {
        law_run_keeps_legal(s, ops.drop_last());
        law_step_keeps_legal(run(s, ops.drop_last()), ops.last());
    }
}

/// A completion that raced an invalidation brings nothing back: whatever else happened
/// between the moment it took the epoch and its return, if at least one delete or versioned
/// write came in between (and fewer than the epoch can count), an upload leaves its key
/// without a fact or with the fact it had, and a HEAD leaves the cache as it is.
pub proof fn law_stale_completion_installs_nothing(
    s: CacheView,
    ops: Seq<CacheStep>,
    key: Seq<char>,
    flight: u64,
    outcome: Option<UploadOutcome>,
    present: bool,
)
    requires
        s.legal(),
        1 <= invalidations(ops) <= u64::MAX,
    ensures
        ({
            let t = run(s, ops);
            let after = t.completing(key, s.epoch, flight, outcome);
            &&& t.probed(key, s.epoch, present) == t
            &&& after == t.landing(key, flight)
            &&& after.fact(key) == (if t.fact(key) == Some(StorageState::InFlight { flight }) {
                None
            } else {
                t.fact(key)
            })
            &&& forall|k: Seq<char>| k != key ==> #[trigger] after.fact(k) == t.fact(k)
        }),
{
    let t = run(s, ops);
    law_run_keeps_legal(s, ops);
    assert(t.epoch != s.epoch);
    law_landing(t, key, flight);
}

/// A completion whose in-flight fact was evicted meanwhile is a no-op: a key without a fact
/// stays without one, and a key that is known by now keeps its fact.
pub proof fn law_late_completion_changes_no_fact(
    s: CacheView,
    key: Seq<char>,
    at: u64,
    flight: u64,
    outcome: Option<UploadOutcome>,
)
    requires
        s.legal(),
        !caching::in_flight(s.fact(key)),
    ensures
        s.fact(key) is None ==> s.completing(key, at, flight, outcome) == s,
        forall|k: Seq<char>| #[trigger]
            s.completing(key, at, flight, outcome).fact(k) == s.fact(k),
{
    law_landing(s, key, flight);
}

/// Landing an upload touches no other key and no other upload of this key, and leaves this
/// one not in flight.
pub proof fn law_landing(s: CacheView, key: Seq<char>, flight: u64)
    requires
        s.legal(),
    ensures
        s.landing(key, flight).fact(key) == (if s.fact(key) == Some(
            StorageState::InFlight { flight },
        ) {
            None
        } else {
            s.fact(key)
        }),
        s.landing(key, flight).fact(key) != Some(StorageState::InFlight { flight }),
        forall|k: Seq<char>| k != key ==> #[trigger] s.landing(key, flight).fact(k) == s.fact(k),
{
    lru_model::lemma_promoted(s.entries, s.cap, key);
    lru_model::lemma_removed(s.entries, s.cap, key);
}

/// A failed upload pollutes nothing: its own in-flight fact goes, every other fact stays.
pub proof fn law_failure_pollutes_nothing(s: CacheView, key: Seq<char>, at: u64, flight: u64)
    requires
        s.legal(),
    ensures
        s.completing(key, at, flight, None) == s.landing(key, flight),
        s.completing(key, at, flight, None).fact(key) == (if s.fact(key) == Some(
            StorageState::InFlight { flight },
        ) {
            None
        } else {
            s.fact(key)
        }),
        forall|k: Seq<char>|
            k != key ==> #[trigger] s.completing(key, at, flight, None).fact(k) == s.fact(k),
{
    law_landing(s, key, flight);
}

/// The cache holds a fact about `key` all through one operation. A listing records its keys
/// one after the other, and holds it after each.
pub open spec fn holds_through(s: CacheView, op: CacheStep, key: Seq<char>) -> bool {
    match op {
        CacheStep::Warmup { keys } => forall|n: int|
            0 <= n <= keys.len() ==> (#[trigger] s.listing_all(keys.take(n))).fact(key) is Some,
        _ => step(s, op).fact(key) is Some,
    }
}

/// The cache holds a fact about `key` from the start to the end of a sequence of operations:
/// the key is neither invalidated nor evicted.
pub open spec fn held(s: CacheView, ops: Seq<CacheStep>, key: Seq<char>) -> bool
    decreases ops.len(),
{
    if ops.len() == 0 {
        s.fact(key) is Some
    } else {
        held(s, ops.drop_last(), key) && holds_through(
            run(s, ops.drop_last()),
            ops.last(),
            key,
        )
    }
}

/// The operation replaces or drops the fact that the upload `flight` of `key` is in flight: it
/// ends this very upload, or it is the success of another upload of the key that was
/// registered at the current epoch. The end of any other upload of the key, be it stale,
/// failed or cancelled, does not.
pub open spec fn settles(s: CacheView, op: CacheStep, key: Seq<char>, flight: u64) -> bool {
    match op {
        CacheStep::Complete { key: k, at, flight: f, outcome } => k == key && (f == flight || (
        outcome is Some && at == s.epoch)),
        CacheStep::Cancel { key: k, flight: f } => k == key && f == flight,
        _ => false,
    }
}

/// None of the operations settles the upload `flight` of `key`.
pub open spec fn unsettled(s: CacheView, ops: Seq<CacheStep>, key: Seq<char>, flight: u64) -> bool
    decreases ops.len(),
{
    ops.len() == 0 || (unsettled(s, ops.drop_last(), key, flight) && !settles(
        run(s, ops.drop_last()),
        ops.last(),
        key,
        flight,
    ))
}

/// A listing that holds a key all along leaves its fact.
proof fn lemma_listing_keeps(s: CacheView, keys: Seq<Seq<char>>, key: Seq<char>)
    requires
        s.legal(),
        s.fact(key) is Some,
        holds_through(s, CacheStep::Warmup { keys }, key),
    ensures
        s.listing_all(keys).fact(key) == s.fact(key),
    decreases keys.len(),
{
    if keys.len() > 0 {
        let front = keys.drop_last();
        let t = s.listing_all(front);
        assert forall|n: int| 0 <= n <= front.len() implies (#[trigger] s.listing_all(
            front.take(n),
        )).fact(key) is Some by {
            assert(front.take(n) =~= keys.take(n));
        }
        lemma_listing_keeps(s, front, key);
        lemma_listing_all(s, front);
        lru_model::lemma_stored(t.entries, t.cap, keys.last(), StorageState::Probed);
        assert(keys.take(keys.len() as int) =~= keys);
        assert(s.listing_all(keys).fact(key) is Some);
    }
}

/// An operation that holds a key all along leaves the fact of an upload; it leaves the fact
/// of one in flight unless it settles it.
proof fn lemma_step_keeps_upload(s: CacheView, op: CacheStep, key: Seq<char>)
    requires
        s.legal(),
        s.fact(key) matches Some(StorageState::Uploaded { .. }) || (s.fact(key) matches Some(
            StorageState::InFlight { flight },
        ) && !settles(s, op, key, flight)),
        holds_through(s, op, key),
    ensures
        step(s, op).fact(key) == s.fact(key),
{
    match op {
        CacheStep::Lookup { key: k } => lru_model::lemma_promoted(s.entries, s.cap, k),
        CacheStep::InstallUpload { key: k, flight } => {
            lru_model::lemma_promoted(s.entries, s.cap, k);
            lru_model::lemma_stored(s.entries, s.cap, k, StorageState::InFlight { flight });
        },
        CacheStep::InstallZerocopy { key: k, flight } => {
            lru_model::lemma_promoted(s.entries, s.cap, k);
            lru_model::lemma_stored(s.entries, s.cap, k, StorageState::InFlight { flight });
        },
        CacheStep::Complete { key: k, at, flight, outcome } => {
            law_landing(s, k, flight);
            if outcome is Some {
                let outcome = outcome.unwrap();
                lru_model::lemma_stored(s.entries, s.cap, k, StorageState::Uploaded { outcome });
            }
        },
        CacheStep::Cancel { key: k, flight } => law_landing(s, k, flight),
        CacheStep::Head { key: k, at, present } => {
            lru_model::lemma_stored(s.entries, s.cap, k, StorageState::Probed);
        },
        CacheStep::Warmup { keys } => lemma_listing_keeps(s, keys, key),
        CacheStep::Invalidate { key: k } => lru_model::lemma_removed(s.entries, s.cap, k),
    }
}

/// What an upload reported stays known, word for word, through every sequence of operations
/// in which the key is neither invalidated nor evicted.
pub proof fn law_uploaded_fact_stays(s: CacheView, ops: Seq<CacheStep>, key: Seq<char>)
    requires
        s.legal(),
        s.fact(key) matches Some(StorageState::Uploaded { .. }),
        held(s, ops, key),
    ensures
        run(s, ops).fact(key) == s.fact(key),
    decreases ops.len(),
{
    if ops.len() > 0 {
        law_uploaded_fact_stays(s, ops.drop_last(), key);
        law_run_keeps_legal(s, ops.drop_last());
        lemma_step_keeps_upload(run(s, ops.drop_last()), ops.last(), key);
    }
}

/// An upload stays registered through every sequence of operations in which its key is
/// neither invalidated nor evicted and which does not settle it.
pub proof fn law_flight_stays_registered(
    s: CacheView,
    ops: Seq<CacheStep>,
    key: Seq<char>,
    flight: u64,
)
    requires
        s.legal(),
        s.fact(key) == Some(StorageState::InFlight { flight }),
        held(s, ops, key),
        unsettled(s, ops, key, flight),
    ensures
        run(s, ops).fact(key) == s.fact(key),
    decreases ops.len(),
{
    if ops.len() > 0 {
        law_flight_stays_registered(s, ops.drop_last(), key, flight);
        law_run_keeps_legal(s, ops.drop_last());
        lemma_step_keeps_upload(run(s, ops.drop_last()), ops.last(), key);
    }
}

/// The fact of an upload is lost in two ways only: its key is invalidated, or it is the least
/// recently used fact of a full cache when another key becomes known.
pub proof fn law_uploaded_fact_is_lost_in_two_ways(s: CacheView, op: CacheStep, key: Seq<char>)
    requires
        s.legal(),
        s.fact(key) matches Some(StorageState::Uploaded { .. }),
        !holds_through(s, op, key),
    ensures
        op == (CacheStep::Invalidate { key }) || evicted_by(s, op, key),
{
    match op {
        CacheStep::Lookup { key: k } => lru_model::lemma_promoted(s.entries, s.cap, k),
        CacheStep::InstallUpload { key: k, flight } => {
            lru_model::lemma_promoted(s.entries, s.cap, k);
            lru_model::lemma_stored(s.entries, s.cap, k, StorageState::InFlight { flight });
        },
        CacheStep::InstallZerocopy { key: k, flight } => {
            lru_model::lemma_promoted(s.entries, s.cap, k);
            lru_model::lemma_stored(s.entries, s.cap, k, StorageState::InFlight { flight });
        },
        CacheStep::Complete { key: k, at, flight, outcome } => {
            law_landing(s, k, flight);
            if outcome is Some {
                let outcome = outcome.unwrap();
                lru_model::lemma_stored(s.entries, s.cap, k, StorageState::Uploaded { outcome });
            }
        },
        CacheStep::Cancel { key: k, flight } => law_landing(s, k, flight),
        CacheStep::Head { key: k, at, present } => {
            lru_model::lemma_stored(s.entries, s.cap, k, StorageState::Probed);
        },
        CacheStep::Warmup { keys } => {
            let n = choose|n: int|
                0 <= n <= keys.len() && (#[trigger] s.listing_all(keys.take(n))).fact(
                    key,
                ) is None;
            lemma_listing_evicts(s, keys, key, n as nat);
        },
        CacheStep::Invalidate { key: k } => lru_model::lemma_removed(s.entries, s.cap, k),
    }
}

/// `key` is the least recently used fact of a full cache.
pub open spec fn next_out(s: CacheView, key: Seq<char>) -> bool {
    s.entries.len() == s.cap && s.entries.last().0 == key
}

/// The operation makes a key known while `key` is the next to go.
pub open spec fn evicted_by(s: CacheView, op: CacheStep, key: Seq<char>) -> bool {
    match op {
        CacheStep::InstallUpload { key: k, .. } => s.fact(k) is None && next_out(s, key),
        CacheStep::InstallZerocopy { key: k, .. } => s.fact(k) is None && next_out(s, key),
        CacheStep::Head { key: k, .. } => s.fact(k) is None && next_out(s, key),
        CacheStep::Warmup { keys } => exists|n: int|
            0 <= n < keys.len() && (#[trigger] s.listing_all(keys.take(n))).fact(keys[n]) is None
                && next_out(s.listing_all(keys.take(n)), key),
        _ => false,
    }
}

/// A key that is known before a listing and unknown after `n` of its keys was the next to go
/// when one of them became known.
proof fn lemma_listing_evicts(s: CacheView, keys: Seq<Seq<char>>, key: Seq<char>, n: nat)
    requires
        s.legal(),
        s.fact(key) is Some,
        n <= keys.len(),
        s.listing_all(keys.take(n as int)).fact(key) is None,
    ensures
        evicted_by(s, CacheStep::Warmup { keys }, key),
    decreases n,
{
    assert(keys.take(0) =~= Seq::<Seq<char>>::empty());
    if n > 0 {
        let m = n - 1;
        let t = s.listing_all(keys.take(m));
        assert(keys.take(n as int).drop_last() =~= keys.take(m));
        assert(keys.take(n as int).last() == keys[m]);
        lemma_listing_all(s, keys.take(m));
        if t.fact(key) is None {
            lemma_listing_evicts(s, keys, key, m as nat);
        } else {
            lru_model::lemma_stored(t.entries, t.cap, keys[m], StorageState::Probed);
            assert(t.fact(keys[m]) is None && next_out(t, key));
        }
    }
}

/// An upload that went undisturbed answers for its key ever after. The upload is registered
/// for a key without a fact; while it runs nothing is invalidated, the key is not evicted,
/// and no other upload of the key that is as recent succeeds; then it reports `outcome`. As
/// long afterwards as the key is neither invalidated nor evicted, every upload of it is
/// answered with that very outcome, whatever its own size, and every presence query with
/// "present".
pub proof fn law_uploaded_key_is_answered_from_the_cache(
    s: CacheView,
    key: Seq<char>,
    flight: u64,
    during: Seq<CacheStep>,
    outcome: UploadOutcome,
    after: Seq<CacheStep>,
    len: u64,
)
    requires
        s.legal(),
        s.fact(key) is None,
        ({
            let registered = step(s, CacheStep::InstallUpload { key, flight });
            let landed = run(registered, during).completing(key, s.epoch, flight, Some(outcome));
            &&& held(registered, during, key)
            &&& invalidations(during) == 0
            &&& unsettled(registered, during, key, flight)
            &&& held(landed, after, key)
        }),
    ensures
        ({
            let registered = step(s, CacheStep::InstallUpload { key, flight });
            let landed = run(registered, during).completing(key, s.epoch, flight, Some(outcome));
            let known = run(landed, after).fact(key);
            &&& known == Some(StorageState::Uploaded { outcome })
            &&& caching::upload_answer(known, len) == UploadLookup::Hit(outcome)
            &&& caching::zerocopy_answer(known) == UploadLookup::Hit(outcome)
            &&& caching::head_answer(known) == HeadLookup::Hit
        }),
{
    let install = CacheStep::InstallUpload { key, flight };
    let registered = step(s, install);
    law_step_keeps_legal(s, install);
    lru_model::lemma_stored(s.entries, s.cap, key, StorageState::InFlight { flight });
    law_flight_stays_registered(registered, during, key, flight);
    law_run_keeps_legal(registered, during);
    let flown = run(registered, during);
    let fact = StorageState::Uploaded { outcome };
    lru_model::lemma_stored(flown.entries, flown.cap, key, fact);
    law_uploaded_fact_stays(flown.remembering(key, fact), after, key);
}

/// While an upload is registered, everyone else is sent to wait for that same upload.
pub proof fn law_one_flight_per_key(s: CacheView, key: Seq<char>, flight: u64, len: u64)
    requires
        s.legal(),
        s.fact(key) is None,
    ensures
        ({
            let t = step(s, CacheStep::InstallUpload { key, flight });
            &&& caching::upload_answer(t.fact(key), len) == UploadLookup::Join { flight }
            &&& caching::zerocopy_answer(t.fact(key)) == UploadLookup::Join { flight }
            &&& caching::head_answer(t.fact(key)) == HeadLookup::Join { flight }
        }),
{
    lru_model::lemma_stored(s.entries, s.cap, key, StorageState::InFlight { flight });
}

/// A delete or a versioned write leaves its key unknown and every other key as it was: the
/// next upload of the key goes to the store, and so does the next presence query.
pub proof fn law_invalidated_key_is_unknown(s: CacheView, key: Seq<char>, len: u64)
    requires
        s.legal(),
    ensures
        s.invalidating(key).fact(key) is None,
        caching::upload_answer(s.invalidating(key).fact(key), len) == UploadLookup::Miss,
        caching::zerocopy_answer(s.invalidating(key).fact(key)) == UploadLookup::Miss,
        caching::head_answer(s.invalidating(key).fact(key)) == HeadLookup::Miss,
        forall|k: Seq<char>| k != key ==> #[trigger] s.invalidating(key).fact(k) == s.fact(k),
{
    lru_model::lemma_removed(s.entries, s.cap, key);
}

/// A negative HEAD is never memoized.
pub proof fn law_negative_head_is_not_cached(s: CacheView, key: Seq<char>, at: u64)
    ensures
        s.probed(key, at, false) == s,
{
}

/// A positive HEAD never replaces a fact.
pub proof fn law_head_never_overwrites(s: CacheView, key: Seq<char>, at: u64)
    requires
        s.fact(key) is Some,
    ensures
        s.probed(key, at, true) == s,
{
}

/// A key known only to be present is not uploaded again from memory, but is when its size
/// is needed.
pub proof fn law_probed_key(len: u64)
    ensures
        caching::upload_answer(Some(StorageState::Probed), len) == UploadLookup::Hit(
            UploadOutcome { uncompressed: len, compressed: None, algo: None },
        ),
        caching::zerocopy_answer(Some(StorageState::Probed)) == UploadLookup::Miss,
        caching::head_answer(Some(StorageState::Probed)) == HeadLookup::Hit,
{
}

/// With room for everything, a listing replaces no fact and leaves every listed key known.
pub proof fn law_warmup_never_overwrites(s: CacheView, keys: Seq<Seq<char>>)
    requires
        s.legal(),
        s.entries.len() + keys.len() <= s.cap,
    ensures
        forall|k: Seq<char>|
            s.fact(k) is Some ==> #[trigger] s.listing_all(keys).fact(k) == s.fact(k),
        forall|i: int| 0 <= i < keys.len() ==> s.listing_all(keys).fact(#[trigger] keys[i]) is Some,
        forall|k: Seq<char>|
            s.fact(k) is None && (#[trigger] s.listing_all(keys).fact(k)) is Some
                ==> s.listing_all(keys).fact(k) == Some(StorageState::Probed) && keys.contains(k),
    decreases keys.len(),
{
    if keys.len() > 0 {
        let front = keys.drop_last();
        let last = keys.last();
        let t = s.listing_all(front);
        law_warmup_never_overwrites(s, front);
        lemma_listing_all(s, front);
        lru_model::lemma_stored(t.entries, t.cap, last, StorageState::Probed);
        let u = s.listing_all(keys);
        assert(u == t.listing(last));
        assert forall|k: Seq<char>| s.fact(k) is Some implies #[trigger] u.fact(k) == s.fact(k) by {
            assert(t.fact(k) == s.fact(k));
            if k != last {
                assert(lru_model::lookup(u.entries, k) == lru_model::lookup(t.entries, k));
            }
        }
        assert forall|i: int| 0 <= i < keys.len() implies u.fact(#[trigger] keys[i]) is Some by {
            if i < front.len() {
                assert(front[i] == keys[i]);
                assert(t.fact(front[i]) is Some);
            }
        }
        assert forall|k: Seq<char>| s.fact(k) is None && (#[trigger] u.fact(k)) is Some implies
            u.fact(k) == Some(StorageState::Probed) && keys.contains(k) by {
            assert(keys[keys.len() - 1] == last);
            if k != last {
                assert(u.fact(k) == t.fact(k));
                assert(front.contains(k));
                let i = choose|i: int| 0 <= i < front.len() && front[i] == k;
                assert(keys[i] == k);
            } else if t.fact(k) is Some {
                assert(u.fact(k) == t.fact(k));
            }
        }
    }
}

/// Recording one more fact forgets at most the least recently used one, and only when the
/// cache is full.
pub proof fn law_only_the_least_recent_fact_is_evicted(
    s: CacheView,
    key: Seq<char>,
    fact: StorageState,
    other: Seq<char>,
)
    requires
        s.legal(),
        other != key,
    ensures
        s.remembering(key, fact).fact(key) == Some(fact),
        s.remembering(key, fact).fact(other) != s.fact(other) ==> s.entries.len() == s.cap
            && other == s.entries.last().0 && s.fact(key) is None,
{
    lru_model::lemma_stored(s.entries, s.cap, key, fact);
}

} // verus!
