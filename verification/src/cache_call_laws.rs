//! Laws of the fact cache's calls: what each is told, and what is known afterwards.
//!
//! What is known about a key is what a peek shows.

use vstd::prelude::*;

use crate::caching::{
    self, CachingObjectStoreBackend, HeadLookup, StorageState, UploadInstall, UploadLookup,
    UploadOutcome,
};
use crate::caching_laws;
use crate::error::ObjectStoreError;
use crate::lru_model;

verus! {

/// A lookup answers from what is known about the key. An upload is told what an upload of the
/// key reported, or that the key is there with the size at hand, or which upload to wait for;
/// one that streams needs the stored size, so that mere presence does not answer it. A presence
/// query is told that the key is there, or which upload to wait for. With nothing known, all
/// three go to the store.
pub proof fn law_lookups_answer_what_is_known(
    a: &mut CachingObjectStoreBackend,
    b: &mut CachingObjectStoreBackend,
    c: &mut CachingObjectStoreBackend,
    key: &str,
    len: u64,
    fact: Option<StorageState>,
    upload: UploadLookup,
    zerocopy: UploadLookup,
    head: HeadLookup,
)
    requires
        *old(a) == *old(b),
        *old(a) == *old(c),
        call_ensures(CachingObjectStoreBackend::peek, (&*old(a), key), fact),
        call_ensures(CachingObjectStoreBackend::lookup_upload, (a, key, len), upload),
        call_ensures(CachingObjectStoreBackend::lookup_zerocopy, (b, key), zerocopy),
        call_ensures(CachingObjectStoreBackend::lookup_head, (c, key), head),
    ensures
        fact matches Some(StorageState::Uploaded { outcome }) ==> upload == UploadLookup::Hit(outcome)
            && zerocopy == UploadLookup::Hit(outcome) && head == HeadLookup::Hit,
        fact matches Some(StorageState::Probed) ==> upload == UploadLookup::Hit(
            UploadOutcome { uncompressed: len, compressed: None, algo: None },
        ) && zerocopy == UploadLookup::Miss && head == HeadLookup::Hit,
        fact matches Some(StorageState::InFlight { flight }) ==> upload == (UploadLookup::Join {
            flight,
        }) && zerocopy == (UploadLookup::Join { flight }) && head == (HeadLookup::Join { flight }),
        fact is None ==> upload == UploadLookup::Miss && zerocopy == UploadLookup::Miss && head
            == HeadLookup::Miss,
{
}

/// A lookup changes nothing that is known about any key, nor the epoch.
pub proof fn law_lookups_change_no_fact(
    a: &mut CachingObjectStoreBackend,
    b: &mut CachingObjectStoreBackend,
    c: &mut CachingObjectStoreBackend,
    key: &str,
    len: u64,
    upload: UploadLookup,
    zerocopy: UploadLookup,
    head: HeadLookup,
    other: &str,
    before: Option<StorageState>,
    after_a: Option<StorageState>,
    after_b: Option<StorageState>,
    after_c: Option<StorageState>,
    epoch: u64,
    epoch_after: u64,
)
    requires
        old(a)@.legal(),
        *old(a) == *old(b),
        *old(a) == *old(c),
        call_ensures(CachingObjectStoreBackend::lookup_upload, (a, key, len), upload),
        call_ensures(CachingObjectStoreBackend::lookup_zerocopy, (b, key), zerocopy),
        call_ensures(CachingObjectStoreBackend::lookup_head, (c, key), head),
        call_ensures(CachingObjectStoreBackend::peek, (&*old(a), other), before),
        call_ensures(CachingObjectStoreBackend::peek, (&*final(a), other), after_a),
        call_ensures(CachingObjectStoreBackend::peek, (&*final(b), other), after_b),
        call_ensures(CachingObjectStoreBackend::peek, (&*final(c), other), after_c),
        call_ensures(CachingObjectStoreBackend::current_epoch, (&*old(a),), epoch),
        call_ensures(CachingObjectStoreBackend::current_epoch, (&*final(a),), epoch_after),
    ensures
        after_a == before,
        after_b == before,
        after_c == before,
        epoch_after == epoch,
{
    lru_model::lemma_promoted(old(a)@.entries, old(a)@.cap, key@);
}

/// An upload is registered exactly if nothing is known about its key, and is then known to be in
/// flight; it is handed the epoch of that moment. Otherwise it is told what a lookup would tell
/// it. A streaming upload is registered over mere presence too.
pub proof fn law_uploads_are_registered(
    a: &mut CachingObjectStoreBackend,
    b: &mut CachingObjectStoreBackend,
    key: &str,
    len: u64,
    flight: u64,
    fact: Option<StorageState>,
    epoch: u64,
    r: UploadInstall,
    z: UploadInstall,
    after: Option<StorageState>,
    after_z: Option<StorageState>,
)
    requires
        old(a)@.legal(),
        *old(a) == *old(b),
        call_ensures(CachingObjectStoreBackend::peek, (&*old(a), key), fact),
        call_ensures(CachingObjectStoreBackend::current_epoch, (&*old(a),), epoch),
        call_ensures(CachingObjectStoreBackend::install_upload, (a, key, len, flight), r),
        call_ensures(CachingObjectStoreBackend::install_zerocopy, (b, key, flight), z),
        call_ensures(CachingObjectStoreBackend::peek, (&*final(a), key), after),
        call_ensures(CachingObjectStoreBackend::peek, (&*final(b), key), after_z),
    ensures
        fact is None ==> r == (UploadInstall::Installed { epoch }) && after == Some(
            StorageState::InFlight { flight },
        ),
        fact is Some ==> after == fact,
        fact matches Some(StorageState::Uploaded { outcome }) ==> r == UploadInstall::Hit(outcome)
            && z == UploadInstall::Hit(outcome) && after_z == fact,
        fact matches Some(StorageState::Probed) ==> r == UploadInstall::Hit(
            UploadOutcome { uncompressed: len, compressed: None, algo: None },
        ),
        fact matches Some(StorageState::InFlight { flight: running }) ==> r == (
        UploadInstall::Join { flight: running }) && z == (UploadInstall::Join { flight: running })
            && after_z == fact,
        fact is None || fact == Some(StorageState::Probed) ==> z == (UploadInstall::Installed {
            epoch,
        }) && after_z == Some(StorageState::InFlight { flight }),
{
    lru_model::lemma_promoted(old(a)@.entries, old(a)@.cap, key@);
    lru_model::lemma_stored(
        old(a)@.entries,
        old(a)@.cap,
        key@,
        StorageState::InFlight { flight },
    );
}

/// A success is remembered with what it reported exactly if nothing was invalidated since the
/// upload was registered and an upload of the key is still known to be in flight. In every
/// other case, and after a failure, the upload's own registration goes and nothing else about
/// the key changes. The caller sees the outcome, or the failure's text.
pub proof fn law_finished_uploads(
    c: &mut CachingObjectStoreBackend,
    key: &str,
    epoch: u64,
    flight: u64,
    result: Result<UploadOutcome, ObjectStoreError>,
    r: Result<UploadOutcome, ObjectStoreError>,
    now: u64,
    fact: Option<StorageState>,
    after: Option<StorageState>,
    now_after: u64,
)
    requires
        old(c)@.legal(),
        call_ensures(CachingObjectStoreBackend::current_epoch, (&*old(c),), now),
        call_ensures(CachingObjectStoreBackend::peek, (&*old(c), key), fact),
        call_ensures(
            CachingObjectStoreBackend::finish_upload,
            (c, key, epoch, flight, result),
            r,
        ),
        call_ensures(CachingObjectStoreBackend::peek, (&*final(c), key), after),
        call_ensures(CachingObjectStoreBackend::current_epoch, (&*final(c),), now_after),
    ensures
        r is Ok <==> result is Ok,
        result matches Ok(outcome) ==> r->Ok_0 == outcome,
        r matches Err(e) ==> e is Other,
        now_after == now,
        result matches Ok(outcome) ==> (now == epoch && (fact matches Some(
            StorageState::InFlight { .. },
        )) ==> after == Some(StorageState::Uploaded { outcome })),
        result is Err || now != epoch || !(fact matches Some(StorageState::InFlight { .. })) ==> {
            &&& fact == Some(StorageState::InFlight { flight }) ==> after is None
            &&& fact != Some(StorageState::InFlight { flight }) ==> after == fact
        },
{
    caching_laws::law_landing(old(c)@, key@, flight);
    if let Ok(outcome) = result {
        lru_model::lemma_stored(
            old(c)@.entries,
            old(c)@.cap,
            key@,
            StorageState::Uploaded { outcome },
        );
    }
}

/// Finishing, cancelling and deleting concern their own key: what is known about every other key
/// stays.
pub proof fn law_other_keys_stay_known(
    a: &mut CachingObjectStoreBackend,
    b: &mut CachingObjectStoreBackend,
    c: &mut CachingObjectStoreBackend,
    d: &mut CachingObjectStoreBackend,
    key: &str,
    other: &str,
    epoch: u64,
    flight: u64,
    result: Result<UploadOutcome, ObjectStoreError>,
    r: Result<UploadOutcome, ObjectStoreError>,
    deletion: Result<(), ObjectStoreError>,
    deleted: Result<(), ObjectStoreError>,
    versioned: Result<(), ObjectStoreError>,
    fact: Option<StorageState>,
    before: Option<StorageState>,
    after_a: Option<StorageState>,
    after_b: Option<StorageState>,
    after_c: Option<StorageState>,
    after_d: Option<StorageState>,
)
    requires
        old(a)@.legal(),
        *old(b) == *old(a),
        *old(c) == *old(a),
        *old(d) == *old(a),
        other@ != key@,
        call_ensures(CachingObjectStoreBackend::peek, (&*old(a), key), fact),
        fact is Some,
        call_ensures(CachingObjectStoreBackend::peek, (&*old(a), other), before),
        call_ensures(
            CachingObjectStoreBackend::finish_upload,
            (a, key, epoch, flight, result),
            r,
        ),
        call_ensures(CachingObjectStoreBackend::cancel_upload, (b, key, flight), ()),
        call_ensures(CachingObjectStoreBackend::finish_delete, (c, key, deletion), deleted),
        call_ensures(CachingObjectStoreBackend::finish_versioned, (d, key, deletion), versioned),
        call_ensures(CachingObjectStoreBackend::peek, (&*final(a), other), after_a),
        call_ensures(CachingObjectStoreBackend::peek, (&*final(b), other), after_b),
        call_ensures(CachingObjectStoreBackend::peek, (&*final(c), other), after_c),
        call_ensures(CachingObjectStoreBackend::peek, (&*final(d), other), after_d),
    ensures
        after_a == before,
        after_b == before,
        after_c == before,
        after_d == before,
{
    caching_laws::law_landing(old(a)@, key@, flight);
    lru_model::lemma_removed(old(a)@.entries, old(a)@.cap, key@);
    if let Ok(outcome) = result {
        lru_model::lemma_stored(
            old(a)@.entries,
            old(a)@.cap,
            key@,
            StorageState::Uploaded { outcome },
        );
    }
}

/// A streaming upload is remembered with its size alone, under the same conditions.
pub proof fn law_finished_streams(
    c: &mut CachingObjectStoreBackend,
    key: &str,
    epoch: u64,
    flight: u64,
    result: Result<u64, ObjectStoreError>,
    r: Result<u64, ObjectStoreError>,
    now: u64,
    fact: Option<StorageState>,
    after: Option<StorageState>,
)
    requires
        old(c)@.legal(),
        call_ensures(CachingObjectStoreBackend::current_epoch, (&*old(c),), now),
        call_ensures(CachingObjectStoreBackend::peek, (&*old(c), key), fact),
        call_ensures(
            CachingObjectStoreBackend::finish_zerocopy,
            (c, key, epoch, flight, result),
            r,
        ),
        call_ensures(CachingObjectStoreBackend::peek, (&*final(c), key), after),
    ensures
        r is Ok <==> result is Ok,
        result matches Ok(size) ==> r->Ok_0 == size,
        result matches Ok(size) ==> (now == epoch && (fact matches Some(
            StorageState::InFlight { .. },
        )) ==> after == Some(
            StorageState::Uploaded {
                outcome: UploadOutcome { uncompressed: size, compressed: None, algo: None },
            },
        )),
        result is Err || now != epoch || !(fact matches Some(StorageState::InFlight { .. })) ==> {
            &&& fact == Some(StorageState::InFlight { flight }) ==> after is None
            &&& fact != Some(StorageState::InFlight { flight }) ==> after == fact
        },
{
    caching_laws::law_landing(old(c)@, key@, flight);
    if let Ok(size) = result {
        let outcome = UploadOutcome { uncompressed: size, compressed: None, algo: None };
        lru_model::lemma_stored(
            old(c)@.entries,
            old(c)@.cap,
            key@,
            StorageState::Uploaded { outcome },
        );
    }
}

/// An upload that was given up is no longer known to be in flight; anything else that is known
/// about its key stays.
pub proof fn law_cancelled_uploads(
    c: &mut CachingObjectStoreBackend,
    key: &str,
    flight: u64,
    fact: Option<StorageState>,
    after: Option<StorageState>,
)
    requires
        old(c)@.legal(),
        call_ensures(CachingObjectStoreBackend::peek, (&*old(c), key), fact),
        call_ensures(CachingObjectStoreBackend::cancel_upload, (c, key, flight), ()),
        call_ensures(CachingObjectStoreBackend::peek, (&*final(c), key), after),
    ensures
        fact == Some(StorageState::InFlight { flight }) ==> after is None,
        fact != Some(StorageState::InFlight { flight }) ==> after == fact,
{
    caching_laws::law_landing(old(c)@, key@, flight);
}

/// A delete that worked leaves nothing known about its key and begins a new epoch; one that
/// failed changes nothing. A versioned write does the former either way. So a completion that
/// was registered before is not remembered.
pub proof fn law_deletes_forget(
    a: &mut CachingObjectStoreBackend,
    b: &mut CachingObjectStoreBackend,
    key: &str,
    result: Result<(), ObjectStoreError>,
    deleted: Result<(), ObjectStoreError>,
    versioned: Result<(), ObjectStoreError>,
    epoch: u64,
    epoch_a: u64,
    epoch_b: u64,
    fact: Option<StorageState>,
    after_a: Option<StorageState>,
    after_b: Option<StorageState>,
)
    requires
        old(a)@.legal(),
        *old(b) == *old(a),
        call_ensures(CachingObjectStoreBackend::current_epoch, (&*old(a),), epoch),
        call_ensures(CachingObjectStoreBackend::peek, (&*old(a), key), fact),
        call_ensures(CachingObjectStoreBackend::finish_delete, (a, key, result), deleted),
        call_ensures(CachingObjectStoreBackend::finish_versioned, (b, key, result), versioned),
        call_ensures(CachingObjectStoreBackend::current_epoch, (&*final(a),), epoch_a),
        call_ensures(CachingObjectStoreBackend::current_epoch, (&*final(b),), epoch_b),
        call_ensures(CachingObjectStoreBackend::peek, (&*final(a), key), after_a),
        call_ensures(CachingObjectStoreBackend::peek, (&*final(b), key), after_b),
    ensures
        deleted == result,
        versioned == result,
        result is Ok ==> after_a is None && epoch_a != epoch,
        result is Ok && epoch < u64::MAX ==> epoch_a == epoch + 1,
        result is Err ==> after_a == fact && epoch_a == epoch,
        after_b is None,
        epoch_b != epoch,
        epoch < u64::MAX ==> epoch_b == epoch + 1,
{
    lru_model::lemma_removed(old(a)@.entries, old(a)@.cap, key@);
}

/// The answer of the store to a presence query is handed on as it is. It is remembered exactly
/// if the key is there, nothing was invalidated since the store was asked, and nothing is known
/// about the key by now.
pub proof fn law_presence_is_remembered(
    c: &mut CachingObjectStoreBackend,
    key: &str,
    epoch: u64,
    result: Result<bool, ObjectStoreError>,
    r: Result<bool, ObjectStoreError>,
    now: u64,
    fact: Option<StorageState>,
    after: Option<StorageState>,
)
    requires
        old(c)@.legal(),
        call_ensures(CachingObjectStoreBackend::current_epoch, (&*old(c),), now),
        call_ensures(CachingObjectStoreBackend::peek, (&*old(c), key), fact),
        call_ensures(CachingObjectStoreBackend::finish_head, (c, key, epoch, result), r),
        call_ensures(CachingObjectStoreBackend::peek, (&*final(c), key), after),
    ensures
        r == result,
        result == Ok::<bool, ObjectStoreError>(true) && now == epoch && fact is None ==> after
            == Some(StorageState::Probed),
        !(result == Ok::<bool, ObjectStoreError>(true) && now == epoch && fact is None) ==> after
            == fact,
{
    lru_model::lemma_stored(old(c)@.entries, old(c)@.cap, key@, StorageState::Probed);
}

/// With room for everything, a listing makes every listed key known, keeps what was known, and
/// reports how many keys it made known.
pub proof fn law_listings_seed(
    c: &mut CachingObjectStoreBackend,
    keys: Vec<String>,
    seeded: usize,
    key: &str,
    fact: Option<StorageState>,
    after: Option<StorageState>,
)
    requires
        old(c)@.legal(),
        old(c)@.entries.len() + keys@.len() <= old(c)@.cap,
        call_ensures(CachingObjectStoreBackend::warmup, (c, &keys), seeded),
        call_ensures(CachingObjectStoreBackend::peek, (&*old(c), key), fact),
        call_ensures(CachingObjectStoreBackend::peek, (&*final(c), key), after),
    ensures
        fact is Some ==> after == fact,
        fact is None && (exists|i: int| 0 <= i < keys@.len() && (#[trigger] keys@[i])@ == key@)
            ==> after == Some(StorageState::Probed),
        fact is None && (forall|i: int| 0 <= i < keys@.len() ==> (#[trigger] keys@[i])@ != key@)
            ==> after is None,
        final(c)@.entries.len() == old(c)@.entries.len() + seeded,
{
    let views = caching::key_views(keys@);
    assert(views.len() == keys@.len());
    caching_laws::law_warmup_never_overwrites(old(c)@, views);
    lemma_seeded(old(c)@, views);
    if exists|i: int| 0 <= i < keys@.len() && (#[trigger] keys@[i])@ == key@ {
        let i = choose|i: int| 0 <= i < keys@.len() && (#[trigger] keys@[i])@ == key@;
        assert(views[i] == key@);
    }
    if views.contains(key@) {
        let i = choose|i: int| 0 <= i < views.len() && views[i] == key@;
        assert(keys@[i]@ == key@);
    }
}

/// The number of keys that a listing makes known is the number of facts that it adds.
proof fn lemma_seeded(s: caching::CacheView, keys: Seq<Seq<char>>)
    requires
        s.legal(),
        s.entries.len() + keys.len() <= s.cap,
    ensures
        s.listing_all(keys).entries.len() == s.entries.len() + s.seeded(keys),
        s.listing_all(keys).legal(),
        s.listing_all(keys).cap == s.cap,
        s.seeded(keys) <= keys.len(),
    decreases keys.len(),
{
    if keys.len() > 0 {
        let front = keys.drop_last();
        lemma_seeded(s, front);
        let t = s.listing_all(front);
        lru_model::lemma_stored(t.entries, t.cap, keys.last(), StorageState::Probed);
    }
}

/// A fresh cache knows nothing, and has room for as many facts as it was made for, one at least.
pub proof fn law_fresh_cache(
    name: String,
    capacity: usize,
    c: CachingObjectStoreBackend,
    key: &str,
    fact: Option<StorageState>,
    label: &str,
)
    requires
        call_ensures(CachingObjectStoreBackend::with_capacity, (name, capacity), c),
        call_ensures(CachingObjectStoreBackend::peek, (&c, key), fact),
        call_ensures(CachingObjectStoreBackend::name, (&c,), label),
    ensures
        fact is None,
        label@ == name@,
        capacity > 0 ==> c@.cap == capacity,
        capacity == 0 ==> c@.cap == 1,
{
}

/// Everyone who waits for an upload gets its outcome, or its failure as an unclassified one; a
/// presence query that waited asks the store exactly if the upload failed.
pub proof fn law_waiting_for_an_upload(
    result: Result<UploadOutcome, ObjectStoreError>,
    joined: Result<UploadOutcome, ObjectStoreError>,
    text: String,
    uploaded: bool,
    head: HeadLookup,
)
    requires
        call_ensures(caching::join_upload, (result,), joined),
        result is Err ==> call_ensures(ObjectStoreError::text, (&result->Err_0,), text),
        call_ensures(caching::head_after_join, (uploaded,), head),
    ensures
        result matches Ok(outcome) ==> joined == Ok::<UploadOutcome, ObjectStoreError>(outcome),
        result is Err ==> (joined matches Err(ObjectStoreError::Other(m)) && m@ == text@),
        head == HeadLookup::Hit <==> uploaded,
        head == HeadLookup::Miss <==> !uploaded,
{
}

/// Without its only entry of a key, a list is the list with that place removed.
proof fn lemma_without_is_removal(
    e: Seq<(Seq<char>, StorageState)>,
    key: Seq<char>,
    i: int,
)
    requires
        0 <= i < e.len(),
        e[i].0 == key,
        forall|j: int| 0 <= j < e.len() && j != i ==> (#[trigger] e[j]).0 != key,
    ensures
        lru_model::without(e, key) == e.remove(i),
    decreases e.len(),
{
    let t = e.drop_first();
    assert forall|j: int| 0 <= j < t.len() implies t[j] == e[j + 1] by {}
    if i == 0 {
        lru_model::lemma_without(t, key);
        lru_model::lemma_lookup_index(t, key);
        if lru_model::lookup(t, key) is Some {
            let j = choose|j: int| 0 <= j < t.len() && (#[trigger] t[j]).0 == key;
            assert(e[j + 1].0 == key);
        }
        assert(e.remove(0) =~= t);
    } else {
        assert(e[0].0 != key);
        assert(t[i - 1].0 == key);
        assert forall|j: int| 0 <= j < t.len() && j != i - 1 implies (#[trigger] t[j]).0 != key by {
            assert(e[j + 1].0 != key);
        }
        lemma_without_is_removal(t, key, i - 1);
        assert(e.remove(i) =~= seq![e[0]] + t.remove(i - 1));
    }
}

/// A key that is looked up becomes the most recent one, and the others keep their order.
pub proof fn law_lookups_refresh(
    c: &mut CachingObjectStoreBackend,
    key: &str,
    i: int,
    len: u64,
    r: UploadLookup,
)
    requires
        old(c)@.legal(),
        0 <= i < old(c)@.entries.len(),
        old(c)@.entries[i].0 == key@,
        call_ensures(CachingObjectStoreBackend::lookup_upload, (c, key, len), r),
    ensures
        final(c)@.entries == seq![old(c)@.entries[i]] + old(c)@.entries.remove(i),
{
    let e = old(c)@.entries;
    lru_model::lemma_lookup_index(e, key@);
    assert forall|j: int| 0 <= j < e.len() && j != i implies (#[trigger] e[j]).0 != key@ by {
        if j < i {
            assert(e[j].0 != e[i].0);
        } else {
            assert(e[i].0 != e[j].0);
        }
    }
    lemma_without_is_removal(e, key@, i);
}

/// A new key becomes the most recent one. A full cache forgets the least recent key for it, and
/// a cache with room forgets none.
pub proof fn law_new_keys_displace_the_least_recent(
    c: &mut CachingObjectStoreBackend,
    key: &str,
    len: u64,
    flight: u64,
    known: Option<StorageState>,
    r: UploadInstall,
)
    requires
        old(c)@.legal(),
        call_ensures(CachingObjectStoreBackend::peek, (&*old(c), key), known),
        known is None,
        call_ensures(CachingObjectStoreBackend::install_upload, (c, key, len, flight), r),
    ensures
        final(c)@.entries.len() > 0,
        final(c)@.entries[0] == (key@, StorageState::InFlight { flight }),
        old(c)@.entries.len() < old(c)@.cap ==> final(c)@.entries.skip(1) == old(c)@.entries,
        old(c)@.entries.len() == old(c)@.cap ==> final(c)@.entries.skip(1)
            == old(c)@.entries.drop_last(),
        final(c)@.entries.len() <= final(c)@.cap,
        final(c)@.cap == old(c)@.cap,
{
    let e = old(c)@.entries;
    let f = final(c)@.entries;
    if e.len() < old(c)@.cap {
        assert(f.skip(1) =~= e);
    } else {
        assert(f.skip(1) =~= e.drop_last());
    }
}

/// A cache that is made without a capacity has the usual one and knows nothing.
pub proof fn law_usual_cache(
    name: String,
    c: CachingObjectStoreBackend,
    key: &str,
    fact: Option<StorageState>,
)
    requires
        call_ensures(CachingObjectStoreBackend::new, (name,), c),
        call_ensures(CachingObjectStoreBackend::peek, (&c, key), fact),
    ensures
        fact is None,
        c@.cap == 262_144,
        c.label() == name@,
{
}

} // verus!
