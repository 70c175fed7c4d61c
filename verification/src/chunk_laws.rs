//! Laws of the chunk pool's operations: what an insert, a listing and a pin lead to.

use vstd::prelude::*;

use crate::error::{IoFailure, IoKind};
use crate::hash::{self, StreamHasher};
use crate::pins::{PinKey, PinTable};
use crate::pool::{self, ChunkPool, ChunkPoolError, FileEntry, InsertPlan, PoolPinGuard, StagedStep};
use crate::pool_laws;
use crate::text;

verus! {

/// The entry is a file that is named by the 64 hexadecimal digits `h` and `.dat`.
pub open spec fn seals(e: FileEntry, h: Seq<char>) -> bool {
    &&& e.is_file
    &&& e.name matches Some(name) && name@ == h + ".dat"@
    &&& h.len() == 64
    &&& forall|i: int|
        0 <= i < 64 ==> {
            let c = #[trigger] h[i];
            '0' <= c <= '9' || 'a' <= c <= 'f' || 'A' <= c <= 'F'
        }
}

/// An entry stands for a chunk exactly if it seals one.
proof fn lemma_seals(e: FileEntry, h: Seq<char>)
    ensures
        seals(e, h) <==> pool::entry_chunk(e) == Some((h, e.size)),
{
    reveal_strlit(".dat");
    if seals(e, h) {
        let name = e.name.unwrap()@;
        assert(name =~= h + ".dat"@);
        assert(".dat"@ =~= name.subrange(name.len() - 4, name.len() as int));
        assert forall|i: int| 0 <= i < 64 implies pool::is_hex_char(#[trigger] name[i]) by {
            assert(name[i] == h[i]);
        }
        assert(name.subrange(0, 64) =~= h);
    }
    if pool::entry_chunk(e) == Some((h, e.size)) {
        let name = e.name.unwrap()@;
        assert(h == name.subrange(0, 64));
        assert(".dat"@ == name.subrange(64, 68));
        assert(name =~= h + ".dat"@);
        assert forall|i: int| 0 <= i < 64 implies {
            let c = #[trigger] h[i];
            '0' <= c <= '9' || 'a' <= c <= 'f' || 'A' <= c <= 'F'
        } by {
            assert(pool::is_hex_char(name[i]));
        }
    }
}

/// Listing one walk after the other lists the chunks of both.
proof fn lemma_listed_adds_up(a: Seq<FileEntry>, b: Seq<FileEntry>)
    ensures
        pool::listed_chunks(a + b) == pool::listed_chunks(a) + pool::listed_chunks(b),
    decreases b.len(),
{
    if b.len() == 0 {
        assert(a + b =~= a);
        assert(pool::listed_chunks(a) + pool::listed_chunks(b) =~= pool::listed_chunks(a));
    } else {
        lemma_listed_adds_up(a, b.drop_last());
        assert((a + b).drop_last() =~= a + b.drop_last());
        assert((a + b).last() == b.last());
        assert(pool::listed_chunks(a + b) =~= pool::listed_chunks(a) + pool::listed_chunks(b));
    }
}

/// What a single entry lists.
proof fn lemma_listed_one(e: FileEntry)
    ensures
        pool::listed_chunks(seq![e]) == (match pool::entry_chunk(e) {
            Some(c) => seq![c],
            None => Seq::empty(),
        }),
{
    let one = seq![e];
    assert(one.drop_last() =~= Seq::<FileEntry>::empty());
    assert(one.last() == e);
    assert(pool::listed_chunks(one.drop_last()) =~= Seq::empty());
    assert(pool::listed_chunks(one) =~= (match pool::entry_chunk(e) {
        Some(c) => seq![c],
        None => Seq::empty(),
    }));
}

/// The listing of one walk followed by another is the listing of the first followed by that of
/// the second, so that no entry hides one that comes after it.
pub proof fn law_listings_add_up(
    pool: ChunkPool,
    a: Vec<FileEntry>,
    b: Vec<FileEntry>,
    ab: Vec<FileEntry>,
    ra: Vec<(String, u64)>,
    rb: Vec<(String, u64)>,
    rab: Vec<(String, u64)>,
)
    requires
        ab@ == a@ + b@,
        call_ensures(ChunkPool::iter_chunks, (&pool, &a), ra),
        call_ensures(ChunkPool::iter_chunks, (&pool, &b), rb),
        call_ensures(ChunkPool::iter_chunks, (&pool, &ab), rab),
    ensures
        rab@.len() == ra@.len() + rb@.len(),
        forall|i: int|
            0 <= i < ra@.len() ==> (#[trigger] rab@[i]).0@ == ra@[i].0@ && rab@[i].1 == ra@[i].1,
        forall|i: int|
            0 <= i < rb@.len() ==> rab@[ra@.len() + i].0@ == (#[trigger] rb@[i]).0@ && rab@[ra@.len()
                + i].1 == rb@[i].1,
{
    lemma_listed_adds_up(a@, b@);
    let va = pool::chunk_views(ra@);
    let vb = pool::chunk_views(rb@);
    let vab = pool::chunk_views(rab@);
    assert(vab == va + vb);
    assert forall|i: int| 0 <= i < ra@.len() implies (#[trigger] rab@[i]).0@ == ra@[i].0@
        && rab@[i].1 == ra@[i].1 by {
        assert(vab[i] == va[i]);
    }
    assert forall|i: int| 0 <= i < rb@.len() implies rab@[ra@.len() + i].0@ == (
    #[trigger] rb@[i]).0@ && rab@[ra@.len() + i].1 == rb@[i].1 by {
        assert(vab[va.len() + i] == vb[i]);
    }
}

/// A walk that meets one entry lists the chunk that the entry seals, with the entry's size,
/// and nothing if it seals none.
pub proof fn law_one_entry_lists_what_it_seals(
    pool: ChunkPool,
    e: FileEntry,
    h: Seq<char>,
    one: Vec<FileEntry>,
    r: Vec<(String, u64)>,
)
    requires
        one@ == seq![e],
        call_ensures(ChunkPool::iter_chunks, (&pool, &one), r),
    ensures
        seals(e, h) ==> r@.len() == 1 && r@[0].0@ == h && r@[0].1 == e.size,
        (forall|x: Seq<char>| !seals(e, x)) ==> r@.len() == 0,
{
    lemma_listed_one(e);
    lemma_seals(e, h);
    let v = pool::chunk_views(r@);
    assert(v.len() == r@.len());
    if seals(e, h) {
        assert(v[0] == (r@[0].0@, r@[0].1));
        assert(v[0] == (h, e.size));
    }
    if pool::entry_chunk(e) is Some {
        let x = pool::entry_chunk(e).unwrap().0;
        lemma_seals(e, x);
        assert(seals(e, x));
    }
}

/// Whatever else a walk meets, a chunk that one of its entries seals is in the listing with
/// that entry's size.
pub proof fn law_sealed_chunks_are_listed(
    pool: ChunkPool,
    entries: Vec<FileEntry>,
    r: Vec<(String, u64)>,
    i: int,
    h: Seq<char>,
)
    requires
        call_ensures(ChunkPool::iter_chunks, (&pool, &entries), r),
        0 <= i < entries@.len(),
        seals(entries@[i], h),
    ensures
        exists|j: int|
            0 <= j < r@.len() && (#[trigger] r@[j]).0@ == h && r@[j].1 == entries@[i].size,
{
    let v = pool::chunk_views(r@);
    assert(v.len() == r@.len());
    lemma_seals(entries@[i], h);
    let j = lemma_listed_place(entries@, i);
    assert(v[j] == (h, entries@[i].size));
    assert(r@[j].0@ == h && r@[j].1 == entries@[i].size);
}

/// Nothing is listed but what an entry of the walk seals, with that entry's size.
pub proof fn law_listed_chunks_are_sealed(
    pool: ChunkPool,
    entries: Vec<FileEntry>,
    r: Vec<(String, u64)>,
    j: int,
)
    requires
        call_ensures(ChunkPool::iter_chunks, (&pool, &entries), r),
        0 <= j < r@.len(),
    ensures
        r@.len() <= entries@.len(),
        exists|i: int|
            0 <= i < entries@.len() && #[trigger] seals(entries@[i], r@[j].0@) && entries@[i].size
                == r@[j].1,
{
    let v = pool::chunk_views(r@);
    assert(v.len() == r@.len());
    let i = lemma_listed_origin(entries@, j);
    assert(v[j] == (r@[j].0@, r@[j].1));
    lemma_seals(entries@[i], r@[j].0@);
    assert(seals(entries@[i], r@[j].0@));
    lemma_listed_len(entries@);
}

/// Where the chunk of an entry stands in the listing.
proof fn lemma_listed_place(entries: Seq<FileEntry>, i: int) -> (j: int)
    requires
        0 <= i < entries.len(),
        pool::entry_chunk(entries[i]) is Some,
    ensures
        0 <= j < pool::listed_chunks(entries).len(),
        pool::listed_chunks(entries)[j] == pool::entry_chunk(entries[i]).unwrap(),
    decreases entries.len(),
{
    let front = entries.drop_last();
    if i == entries.len() - 1 {
        pool::listed_chunks(front).len() as int
    } else {
        assert(front[i] == entries[i]);
        lemma_listed_place(front, i)
    }
}

/// Which entry a listed chunk comes from.
proof fn lemma_listed_origin(entries: Seq<FileEntry>, j: int) -> (i: int)
    requires
        0 <= j < pool::listed_chunks(entries).len(),
    ensures
        0 <= i < entries.len(),
        pool::entry_chunk(entries[i]) == Some(pool::listed_chunks(entries)[j]),
    decreases entries.len(),
{
    let front = entries.drop_last();
    if j < pool::listed_chunks(front).len() {
        let i = lemma_listed_origin(front, j);
        assert(front[i] == entries[i]);
        i
    } else {
        entries.len() - 1
    }
}

/// A listing is no longer than the walk.
proof fn lemma_listed_len(entries: Seq<FileEntry>)
    ensures
        pool::listed_chunks(entries).len() <= entries.len(),
    decreases entries.len(),
{
    if entries.len() > 0 {
        lemma_listed_len(entries.drop_last());
    }
}

/// The value of a hexadecimal digit.
pub open spec fn hex_value(c: char) -> int {
    if '0' <= c <= '9' {
        c as int - '0' as int
    } else if 'a' <= c <= 'f' {
        c as int - 'a' as int + 10
    } else {
        c as int - 'A' as int + 10
    }
}

/// What the digits of a hash decode to.
proof fn lemma_decoded_digits(h: Seq<char>, k: int)
    requires
        pool_laws::full_hash(h),
        0 <= k < 32,
    ensures
        hash::decoded(h) is Some,
        hash::decoded(h).unwrap().len() == 32,
        hash::decoded(h).unwrap()[k] == 16 * hex_value(h[2 * k]) + hex_value(h[2 * k + 1]),
{
    assert forall|i: int| 0 <= i < h.len() implies '\0' <= #[trigger] h[i] <= '\u{7f}' by {
        assert(pool::is_hex_char(h[i]));
    }
    vstd::utf8::is_ascii_chars_encode_utf8(h);
    let b = vstd::utf8::encode_utf8(h);
    assert forall|i: int| 0 <= i < 64 implies hash::digit_value(#[trigger] b[i]) == Some(
        hex_value(h[i]),
    ) && 0 <= hex_value(h[i]) < 16 by {
        assert(pool::is_hex_char(h[i]));
        assert(h[i] as u8 == b[i]);
    }
    assert(hash::digit_value(b[2 * k]) == Some(hex_value(h[2 * k])));
    assert(hash::digit_value(b[2 * k + 1]) == Some(hex_value(h[2 * k + 1])));
    assert(0 <= hex_value(h[2 * k]) < 16 && 0 <= hex_value(h[2 * k + 1]) < 16);
}

/// The decoding walk visits the chunks that the listing lists, in the same order and with the
/// same sizes, and hands out the bytes that each hash spells.
pub proof fn law_decoding_walk_follows_the_listing(
    pool: ChunkPool,
    entries: Vec<FileEntry>,
    listed: Vec<(String, u64)>,
    visited: Vec<([u8; 32], u64)>,
)
    requires
        call_ensures(ChunkPool::iter_chunks, (&pool, &entries), listed),
        call_ensures(ChunkPool::for_each_chunk, (&pool, &entries), visited),
    ensures
        visited@.len() == listed@.len(),
        forall|j: int|
            0 <= j < listed@.len() ==> (#[trigger] visited@[j]).1 == listed@[j].1
                && listed@[j].0@.len() == 64,
        forall|j: int, k: int|
            0 <= j < listed@.len() && 0 <= k < 32 ==> (#[trigger] visited@[j].0@[k]) == 16
                * hex_value(listed@[j].0@[2 * k]) + hex_value(listed@[j].0@[2 * k + 1]),
{
    let chunks = pool::listed_chunks(entries@);
    let vl = pool::chunk_views(listed@);
    let vv = pool::digest_views(visited@);
    assert(vl == chunks && vl.len() == listed@.len());
    assert(vv == pool::decoded_chunks(chunks) && vv.len() == visited@.len());
    assert forall|j: int| 0 <= j < listed@.len() implies (#[trigger] visited@[j]).1 == listed@[j].1
        && listed@[j].0@.len() == 64 by {
        assert(vl[j] == (listed@[j].0@, listed@[j].1));
        assert(vv[j] == (visited@[j].0@, visited@[j].1));
        assert(vv[j] == (hash::decoded(chunks[j].0).unwrap(), chunks[j].1));
        pool_laws::law_listed_chunks_decode(entries@, j);
    }
    assert forall|j: int, k: int| 0 <= j < listed@.len() && 0 <= k < 32 implies (
    #[trigger] visited@[j].0@[k]) == 16 * hex_value(listed@[j].0@[2 * k]) + hex_value(
        listed@[j].0@[2 * k + 1],
    ) by {
        assert(vl[j] == (listed@[j].0@, listed@[j].1));
        assert(vv[j] == (visited@[j].0@, visited@[j].1));
        assert(vv[j] == (hash::decoded(chunks[j].0).unwrap(), chunks[j].1));
        pool_laws::law_listed_chunks_decode(entries@, j);
        lemma_decoded_digits(chunks[j].0, k);
    }
}

/// A chunk is addressed by the BLAKE3 digest of its bytes alone: the plan of an insert, the
/// content hash and the bytes that the hash spells all agree, whichever pool it is inserted
/// into, and the file is the one that a lookup by that hash goes to.
pub proof fn law_inserts_are_found_by_their_hash(
    pool: ChunkPool,
    other: ChunkPool,
    bytes: &[u8],
    plan: InsertPlan,
    other_plan: InsertPlan,
    hash_hex: &str,
    looked_up: String,
    alone: String,
    spelled: Option<[u8; 32]>,
)
    requires
        call_ensures(ChunkPool::insert_bytes, (&pool, bytes), plan),
        call_ensures(ChunkPool::insert_bytes, (&other, bytes), other_plan),
        hash_hex@ == plan.hash@,
        call_ensures(ChunkPool::store_path, (&pool, hash_hex), looked_up),
        call_ensures(hash::content_hash, (bytes,), alone),
        call_ensures(hash::decode_hash_hex, (hash_hex,), spelled),
    ensures
        plan.hash@.len() == 64,
        other_plan.hash@ == plan.hash@,
        looked_up@ == plan.path@,
        alone@ == plan.hash@,
        spelled matches Some(digest) && digest@ == hash::blake3_of(bytes@),
{
    let digest = hash::blake3_of(bytes@);
    pool_laws::lemma_full_hash(plan.hash@);
    assert(hash::hex_text(digest).len() == 64);
    hash::law_decoding_inverts_encoding(digest);
}

/// Chunks whose digests differ get different hashes and, in one pool, different files.
pub proof fn law_different_digests_are_kept_apart(
    pool: ChunkPool,
    a: &[u8],
    b: &[u8],
    plan_a: InsertPlan,
    plan_b: InsertPlan,
)
    requires
        call_ensures(ChunkPool::insert_bytes, (&pool, a), plan_a),
        call_ensures(ChunkPool::insert_bytes, (&pool, b), plan_b),
        hash::blake3_of(a@) != hash::blake3_of(b@),
    ensures
        plan_a.hash@ != plan_b.hash@,
        plan_a.path@ != plan_b.path@,
{
    pool_laws::lemma_full_hash(plan_a.hash@);
    pool_laws::lemma_full_hash(plan_b.hash@);
    assert(hash::hex_text(hash::blake3_of(a@)).len() == 64);
    assert(hash::hex_text(hash::blake3_of(b@)).len() == 64);
    if plan_a.hash@ == plan_b.hash@ {
        hash::law_addresses_are_distinct(hash::blake3_of(a@), hash::blake3_of(b@));
    }
    pool_laws::law_pools_apart_share_no_file(pool@, plan_a.hash@, pool@, plan_b.hash@);
}

/// Bytes hash to the same address however they are cut into pieces.
pub proof fn law_pieces_hash_as_the_whole(
    fresh: StreamHasher,
    a: &mut StreamHasher,
    b: &mut StreamHasher,
    first: &[u8],
    second: &[u8],
    whole: &[u8],
    pieces: String,
    once: String,
)
    requires
        call_ensures(StreamHasher::new, (), fresh),
        *old(a) == fresh,
        call_ensures(StreamHasher::update, (a, first), ()),
        *old(b) == *final(a),
        call_ensures(StreamHasher::update, (b, second), ()),
        call_ensures(StreamHasher::finish, (&*final(b),), pieces),
        whole@ == first@ + second@,
        call_ensures(hash::content_hash, (whole,), once),
    ensures
        pieces@ == once@,
{
    assert(final(b)@ =~= whole@);
}

/// An insert reports the chunk as new exactly if it was not there.
pub proof fn law_insert_tells_new_from_known(plan: InsertPlan, present: bool, r: (String, bool))
    requires
        call_ensures(InsertPlan::outcome, (plan, present), r),
    ensures
        r.0@ == plan.hash@,
        r.1 <==> !present,
{
}

/// Bytes from elsewhere are written under a hash exactly if nothing is there yet and an insert
/// would give them that hash. What is there already is left alone, and bytes with another hash
/// are refused with both.
pub proof fn law_foreign_bytes_must_have_their_hash(
    pool: ChunkPool,
    expected: &str,
    bytes: &[u8],
    present: bool,
    plan: InsertPlan,
    r: Result<bool, ChunkPoolError>,
)
    requires
        call_ensures(ChunkPool::insert_bytes, (&pool, bytes), plan),
        call_ensures(ChunkPool::insert_verified_bytes, (&pool, expected, bytes, present), r),
    ensures
        present ==> r == Ok::<bool, ChunkPoolError>(false),
        !present && plan.hash@ == expected@ ==> r == Ok::<bool, ChunkPoolError>(true),
        !present && plan.hash@ != expected@ ==> (r matches Err(
            ChunkPoolError::HashMismatch { expected: e, actual },
        ) && e@ == expected@ && actual@ == plan.hash@),
{
}

/// The file of a chunk: the root, `chunks`, the backend, the namespace if there is one, the
/// first and the second pair of digits, and the hash with `.dat`.
pub proof fn law_chunk_file_layout(
    root: &str,
    backend: &str,
    namespace: &str,
    shared: ChunkPool,
    scoped: ChunkPool,
    h: &str,
    path: String,
    scoped_path: String,
)
    requires
        root@.len() > 0,
        root@.last() != '/',
        pool_laws::one_component(backend@),
        pool_laws::one_component(namespace@),
        pool_laws::full_hash(h@),
        call_ensures(ChunkPool::new, (root, backend), shared),
        call_ensures(ChunkPool::new_namespaced, (root, backend, namespace), scoped),
        call_ensures(ChunkPool::store_path, (&shared, h), path),
        call_ensures(ChunkPool::store_path, (&scoped, h), scoped_path),
    ensures
        path@ == root@ + "/chunks/"@ + backend@ + "/"@ + h@.subrange(0, 2) + "/"@ + h@.subrange(2, 4)
            + "/"@ + h@ + ".dat"@,
        scoped_path@ == root@ + "/chunks/"@ + backend@ + "/"@ + namespace@ + "/"@ + h@.subrange(
            0,
            2,
        ) + "/"@ + h@.subrange(2, 4) + "/"@ + h@ + ".dat"@,
{
    pool_laws::lemma_path_shape(shared@, h@);
    pool_laws::lemma_path_shape(scoped@, h@);
    reveal_strlit("/chunks/");
    reveal_strlit("chunks");
    reveal_strlit("/");
    let dir = text::joined(root@, "chunks"@) + "/"@;
    assert(dir =~= root@ + "/chunks/"@);
    let tail = pool_laws::tail_of(h@);
    let s = "/"@;
    let x = h@.subrange(0, 2);
    let y = h@.subrange(2, 4);
    let at = dir + backend@ + s;
    assert(at + tail =~= at + x + s + y + s + h@ + ".dat"@);
    let below = at + namespace@ + s;
    assert(below + tail =~= below + x + s + y + s + h@ + ".dat"@);
    assert(dir + (backend@ + s + namespace@) + s + tail =~= below + tail);
    assert(path@ =~= at + tail);
    assert(scoped_path@ =~= below + tail);
}

/// The object key of a chunk: `chunks`, the namespace if there is one, the first and the second
/// pair of digits, and the hash with `.dat`. All ways to ask for it agree.
pub proof fn law_object_key_layout(
    root: &str,
    backend: &str,
    namespace: &str,
    shared: ChunkPool,
    scoped: ChunkPool,
    h: &str,
    key: String,
    scoped_key: String,
    key_in_store: String,
    key_for: String,
)
    requires
        pool_laws::full_hash(h@),
        call_ensures(ChunkPool::new, (root, backend), shared),
        call_ensures(ChunkPool::new_namespaced, (root, backend, namespace), scoped),
        call_ensures(ChunkPool::object_key, (&shared, h), key),
        call_ensures(ChunkPool::object_key, (&scoped, h), scoped_key),
        call_ensures(ChunkPool::object_key_in_store, (&scoped, h), key_in_store),
        call_ensures(ChunkPool::object_key_for, (Some(namespace), h), key_for),
    ensures
        key@ == "chunks/"@ + h@.subrange(0, 2) + "/"@ + h@.subrange(2, 4) + "/"@ + h@ + ".dat"@,
        scoped_key@ == "chunks/"@ + namespace@ + "/"@ + h@.subrange(0, 2) + "/"@ + h@.subrange(2, 4)
            + "/"@ + h@ + ".dat"@,
        key_in_store@ == scoped_key@,
        key_for@ == scoped_key@,
{
    pool_laws::lemma_full_hash(h@);
}

/// The two directory levels of a hash are its first two pairs of digits. A pair that is missing
/// is replaced by zeros.
pub proof fn law_directory_levels(h: &str, r: (&str, &str))
    requires
        vstd::utf8::is_ascii_chars(h@),
        call_ensures(pool::shard_pair, (h,), r),
    ensures
        h@.len() >= 2 ==> r.0@ == h@.subrange(0, 2),
        h@.len() >= 4 ==> r.1@ == h@.subrange(2, 4),
        h@.len() < 2 ==> r.0@ == "00"@,
        h@.len() < 4 ==> r.1@ == "00"@,
{
    vstd::utf8::is_ascii_chars_encode_utf8(h@);
    if h@.len() >= 2 {
        pool::lemma_ascii_piece(h@, 0, 2);
    }
    if h@.len() >= 4 {
        pool::lemma_ascii_piece(h@, 2, 4);
    }
}

/// A pool answers with the names it was made with.
pub proof fn law_pools_know_their_names(
    root: &str,
    backend: &str,
    namespace: &str,
    shared: ChunkPool,
    scoped: ChunkPool,
    root_read: &str,
    backend_read: &str,
    none: Option<&str>,
    some: Option<&str>,
    cartridge: Option<&str>,
)
    requires
        call_ensures(ChunkPool::new, (root, backend), shared),
        call_ensures(ChunkPool::new_namespaced, (root, backend, namespace), scoped),
        call_ensures(ChunkPool::root, (&scoped,), root_read),
        call_ensures(ChunkPool::backend_name, (&scoped,), backend_read),
        call_ensures(ChunkPool::namespace, (&shared,), none),
        call_ensures(ChunkPool::namespace, (&scoped,), some),
        call_ensures(ChunkPool::cartridge_namespace, (&scoped,), cartridge),
    ensures
        root_read@ == root@,
        backend_read@ == backend@,
        none is None,
        some matches Some(s) && s@ == namespace@,
        cartridge matches Some(s) && s@ == namespace@,
{
}

/// A temporary file stands beside the chunk's own: its path begins with the chunk's and ends in
/// `.tmp`, so that the two are never the same, and it is in the same directory.
pub proof fn law_temporary_file_stands_beside_the_chunk(
    pool: ChunkPool,
    h: &str,
    pid: u32,
    n: u64,
    path: String,
    tmp: String,
)
    requires
        pool_laws::full_hash(h@),
        call_ensures(ChunkPool::store_path, (&pool, h), path),
        call_ensures(ChunkPool::tmp_path, (&pool, h, pid, n), tmp),
    ensures
        tmp@ == path@ + "."@ + text::decimal(pid as nat) + "."@ + text::decimal(n as nat) + ".tmp"@,
        tmp@ != path@,
{
    pool_laws::lemma_file_is_not_bare(pool@, h@);
    reveal_strlit(".tmp");
}

/// A staged file is dropped where the chunk is there already and moved into place where it is
/// not.
pub proof fn law_staged_file_is_dropped_or_moved(present: bool, r: StagedStep)
    requires
        call_ensures(pool::staged_insert, (present,), r),
    ensures
        r == StagedStep::RemoveStaged <==> present,
        r == StagedStep::Rename <==> !present,
{
}

/// A move that worked ends the insert. One that failed between two devices is made up for by a
/// copy; any other failure is reported as it is.
pub proof fn law_failed_moves(result: Result<(), IoFailure>, r: Result<StagedStep, ChunkPoolError>)
    requires
        call_ensures(pool::after_rename, (result,), r),
    ensures
        r == Ok::<StagedStep, ChunkPoolError>(StagedStep::Done) <==> result is Ok,
        r == Ok::<StagedStep, ChunkPoolError>(StagedStep::CopyThenRemoveStaged) <==> (
        result matches Err(e) && e.kind == IoKind::CrossesDevices),
        r is Err <==> (result matches Err(e) && e.kind != IoKind::CrossesDevices),
        r matches Err(e) ==> e == ChunkPoolError::Io(result->Err_0),
{
}

/// Removing a file fails only if the file was there and could not be removed.
pub proof fn law_removals(result: Result<(), IoFailure>, r: Result<(), ChunkPoolError>)
    requires
        call_ensures(pool::after_remove, (result,), r),
    ensures
        r is Err <==> (result matches Err(e) && e.kind != IoKind::NotFound),
        r matches Err(e) ==> e == ChunkPoolError::Io(result->Err_0),
{
}

/// A chunk is pinned once it was pinned, whatever happened before, and pinning it leaves every
/// chunk of another hash, backend or namespace as it was.
pub proof fn law_pinning_pins(
    pool: ChunkPool,
    t: &mut PinTable,
    h: &str,
    guard: PoolPinGuard,
    pinned: bool,
    other: ChunkPool,
    other_h: &str,
    before: bool,
    after: bool,
)
    requires
        call_ensures(ChunkPool::pin, (&pool, t, h), guard),
        call_ensures(ChunkPool::is_pinned, (&pool, &*final(t), h), pinned),
        call_ensures(ChunkPool::is_pinned, (&other, &*old(t), other_h), before),
        call_ensures(ChunkPool::is_pinned, (&other, &*final(t), other_h), after),
    ensures
        pinned,
        other_h@ != h@ || other@.backend != pool@.backend || other@.namespace != pool@.namespace
            ==> after == before,
{
    let k = pool@.pin_key(h@);
    let o = other@.pin_key(other_h@);
    assert(final(t).count(k) == old(t).count(k) + 1);
    assert(final(t).count(o) == old(t).count(o) + if o == k {
        1int
    } else {
        0
    });
}

/// Giving a pin back makes every chunk pinned or not as it was before the pin was taken; a chunk
/// that was pinned twice stays pinned.
pub proof fn law_releasing_undoes_pinning(
    pool: ChunkPool,
    t: &mut PinTable,
    u: &mut PinTable,
    h: &str,
    guard: PoolPinGuard,
    other: ChunkPool,
    other_h: &str,
    before: bool,
    after: bool,
)
    requires
        call_ensures(ChunkPool::pin, (&pool, t, h), guard),
        *old(u) == *final(t),
        call_ensures(PoolPinGuard::release, (guard, u), ()),
        call_ensures(ChunkPool::is_pinned, (&other, &*old(t), other_h), before),
        call_ensures(ChunkPool::is_pinned, (&other, &*final(u), other_h), after),
    ensures
        after == before,
{
    let k = pool@.pin_key(h@);
    let o = other@.pin_key(other_h@);
    assert(final(t).count(o) == old(t).count(o) + if o == k {
        1int
    } else {
        0
    });
    assert(final(u).count(o) == if o == k && old(u).count(o) > 0 {
        old(u).count(o) - 1
    } else {
        old(u).count(o) as int
    });
}

/// A fresh table pins nothing; the table counts one more for each pin and one less for each
/// that is given back, and a chunk is pinned exactly while the count is not zero.
pub proof fn law_pins_are_counted(
    fresh: PinTable,
    key: PinKey,
    none: u32,
    t: &mut PinTable,
    u: &mut PinTable,
    before: u32,
    after: u32,
    given_back: u32,
    pinned: bool,
)
    requires
        call_ensures(PinTable::new, (), fresh),
        call_ensures(PinTable::times_pinned, (&fresh, &key), none),
        call_ensures(PinTable::times_pinned, (&*old(t), &key), before),
        call_ensures(PinTable::pin, (t, &key), ()),
        call_ensures(PinTable::times_pinned, (&*final(t), &key), after),
        *old(u) == *final(t),
        call_ensures(PinTable::unpin, (u, &key), ()),
        call_ensures(PinTable::times_pinned, (&*final(u), &key), given_back),
        call_ensures(PinTable::is_pinned, (&*final(u), &key), pinned),
    ensures
        none == 0,
        after == before + 1,
        given_back == before,
        pinned <==> before > 0,
{
    assert(final(t).count(key@) == old(t).count(key@) + 1);
    assert(final(u).count(key@) == old(u).count(key@) - 1);
}

/// Asking a pool and asking by name is the same.
pub proof fn law_pins_by_name(
    root: &str,
    backend: &str,
    namespace: &str,
    scoped: ChunkPool,
    t: PinTable,
    h: &str,
    asked: bool,
    by_name: bool,
)
    requires
        call_ensures(ChunkPool::new_namespaced, (root, backend, namespace), scoped),
        call_ensures(ChunkPool::is_pinned, (&scoped, &t, h), asked),
        call_ensures(ChunkPool::is_pinned_for, (&t, backend, Some(namespace), h), by_name),
    ensures
        asked == by_name,
{
}

/// The name of a chunk file tells its hash, and no other name does; a file of that name decodes
/// to the bytes that the hash spells, with the size of the file.
pub proof fn law_chunk_file_names(
    name: String,
    size: u64,
    h: Seq<char>,
    read: &str,
    r: Option<String>,
    d: Option<([u8; 32], u64)>,
    other: Option<([u8; 32], u64)>,
    k: int,
)
    requires
        read@ == name@,
        call_ensures(pool::chunk_file_hash, (read,), r),
        call_ensures(pool::decode_entry, (&FileEntry { is_file: true, name: Some(name), size },), d),
        call_ensures(
            pool::decode_entry,
            (&FileEntry { is_file: false, name: Some(name), size },),
            other,
        ),
        0 <= k < 32,
    ensures
        seals(FileEntry { is_file: true, name: Some(name), size }, h) ==> r is Some
            && r->Some_0@ == h && d is Some && d->Some_0.1 == size && d->Some_0.0@[k] == 16
            * hex_value(h[2 * k]) + hex_value(h[2 * k + 1]),
        r matches Some(s) ==> seals(FileEntry { is_file: true, name: Some(name), size }, s@),
        d is Some <==> r is Some,
        other is None,
{
    let e = FileEntry { is_file: true, name: Some(name), size };
    lemma_seals(e, h);
    if let Some(s) = r {
        lemma_seals(e, s@);
    }
    if seals(e, h) {
        lemma_decoded_digits(h, k);
    }
}

/// The files of a pool stand under its directory, which is that of its backend and, in a pool of
/// its own, of its namespace.
pub proof fn law_pool_directories(
    root: &str,
    backend: &str,
    namespace: &str,
    shared: ChunkPool,
    scoped: ChunkPool,
    a: String,
    b: String,
    inner: String,
)
    requires
        call_ensures(ChunkPool::new, (root, backend), shared),
        call_ensures(ChunkPool::new_namespaced, (root, backend, namespace), scoped),
        call_ensures(ChunkPool::pool_dir, (&shared,), a),
        call_ensures(ChunkPool::pool_dir, (&scoped,), b),
        call_ensures(text::join_path, (root, "chunks"), inner),
        inner@.len() > 0,
        inner@.last() != '/',
        a@.len() > 0,
        a@.last() != '/',
        backend@.len() > 0,
        backend@[0] != '/',
        namespace@.len() > 0,
        namespace@[0] != '/',
    ensures
        a@ == inner@ + "/"@ + backend@,
        b@ == a@ + "/"@ + namespace@,
{
}

} // verus!
