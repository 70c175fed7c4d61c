//! Laws of chunk names: nothing collides, and what is sealed is found again.

use vstd::prelude::*;

use crate::hash;
use crate::pool::{self, InsertPlan, PoolView};
use crate::text;

verus! {

/// A full-length hexadecimal hash.
pub open spec fn full_hash(h: Seq<char>) -> bool {
    h.len() == 64 && forall|i: int| 0 <= i < 64 ==> pool::is_hex_char(#[trigger] h[i])
}

/// A name that is one path component.
pub open spec fn one_component(name: Seq<char>) -> bool {
    name.len() > 0 && forall|i: int| 0 <= i < name.len() ==> #[trigger] name[i] != '/'
}

/// What follows the namespace in a key or the directory in a path.
pub open spec fn tail_of(h: Seq<char>) -> Seq<char> {
    h.subrange(0, 2) + "/"@ + h.subrange(2, 4) + "/"@ + h + ".dat"@
}

/// A full hash can be cut into its directory levels.
pub proof fn lemma_full_hash(h: Seq<char>)
    requires
        full_hash(h),
    ensures
        pool::shardable(h),
        pool::first_shard(h) == h.subrange(0, 2),
        pool::second_shard(h) == h.subrange(2, 4),
        tail_of(h).len() == 74,
        forall|i: int| 0 <= i < 64 ==> tail_of(h)[6 + i] == #[trigger] h[i],
{
    assert(vstd::utf8::is_ascii_chars(h)) by {
        assert forall|i: int| 0 <= i < h.len() implies '\0' <= #[trigger] h[i] <= '\u{7f}' by {
            assert(pool::is_hex_char(h[i]));
        }
    }
    pool::lemma_ascii_is_shardable(h);
    reveal_strlit("/");
    reveal_strlit(".dat");
}

/// Two full hashes with equal tails are equal.
proof fn lemma_tail_is_injective(a: Seq<char>, b: Seq<char>)
    requires
        full_hash(a),
        full_hash(b),
        tail_of(a) == tail_of(b),
    ensures
        a == b,
{
    lemma_full_hash(a);
    lemma_full_hash(b);
    assert forall|i: int| 0 <= i < 64 implies a[i] == b[i] by {
        assert(tail_of(a)[6 + i] == a[i]);
        assert(tail_of(b)[6 + i] == b[i]);
    }
    assert(a =~= b);
}

/// Splits equal concatenations whose last parts have equal length.
proof fn lemma_split_at_tail(a: Seq<char>, x: Seq<char>, b: Seq<char>, y: Seq<char>)
    requires
        a + x == b + y,
        x.len() == y.len(),
    ensures
        a == b,
        x == y,
{
    let n = a.len() as int;
    assert((a + x).len() == a.len() + x.len());
    assert((b + y).len() == b.len() + y.len());
    assert(a =~= (a + x).subrange(0, n));
    assert(b =~= (b + y).subrange(0, n));
    assert(x =~= (a + x).subrange(n, n + x.len()));
    assert(y =~= (b + y).subrange(n, n + y.len()));
}

/// The part of a key before the tail.
pub open spec fn key_head(namespace: Option<Seq<char>>) -> Seq<char> {
    match namespace {
        Some(ns) => "chunks/"@ + ns + "/"@,
        None => "chunks/"@,
    }
}

/// A tail put together piece by piece behind a head.
proof fn lemma_regroup(head: Seq<char>, first: Seq<char>, second: Seq<char>, h: Seq<char>)
    ensures
        head + first + "/"@ + second + "/"@ + h + ".dat"@ == head + (first + "/"@ + second + "/"@
            + h + ".dat"@),
{
    let slash = "/"@;
    let end = ".dat"@;
    assert(head + first + slash =~= head + (first + slash));
    assert(head + (first + slash) + second =~= head + (first + slash + second));
    assert(head + (first + slash + second) + slash =~= head + (first + slash + second + slash));
    assert(head + (first + slash + second + slash) + h =~= head + (first + slash + second + slash
        + h));
    assert(head + (first + slash + second + slash + h) + end =~= head + (first + slash + second
        + slash + h + end));
}

/// A key is its head and its tail.
pub proof fn lemma_key_shape(namespace: Option<Seq<char>>, h: Seq<char>)
    requires
        full_hash(h),
    ensures
        pool::key_of(namespace, h) == key_head(namespace) + tail_of(h),
{
    lemma_full_hash(h);
    lemma_regroup(key_head(namespace), h.subrange(0, 2), h.subrange(2, 4), h);
}

/// Two chunks share an object key only if they are the same chunk of the same namespace, or
/// both outside any.
pub proof fn law_object_keys_do_not_collide(
    ns_a: Option<Seq<char>>,
    a: Seq<char>,
    ns_b: Option<Seq<char>>,
    b: Seq<char>,
)
    requires
        full_hash(a),
        full_hash(b),
        pool::key_of(ns_a, a) == pool::key_of(ns_b, b),
    ensures
        ns_a == ns_b,
        a == b,
{
    lemma_key_shape(ns_a, a);
    lemma_key_shape(ns_b, b);
    lemma_full_hash(a);
    lemma_full_hash(b);
    lemma_split_at_tail(key_head(ns_a), tail_of(a), key_head(ns_b), tail_of(b));
    lemma_tail_is_injective(a, b);
    reveal_strlit("/");
    reveal_strlit("chunks/");
    if ns_a is Some && ns_b is Some {
        let x = ns_a.unwrap();
        let y = ns_b.unwrap();
        let head = "chunks/"@;
        assert(x =~= (head + x + "/"@).subrange(7, 7 + x.len() as int));
        assert(y =~= (head + y + "/"@).subrange(7, 7 + y.len() as int));
    }
}

/// A one-component name is appended after a separator.
proof fn lemma_joined_component(path: Seq<char>, part: Seq<char>)
    requires
        path.len() > 0,
        path.last() != '/',
        part.len() > 0,
        part[0] != '/',
    ensures
        text::joined(path, part) == path + "/"@ + part,
        text::joined(path, part).len() > 0,
        text::joined(path, part).last() == part.last(),
{
    reveal_strlit("/");
}

/// What every pool below a root starts with.
pub open spec fn chunks_dir(root: Seq<char>) -> Seq<char> {
    text::joined(root, "chunks"@)
}

/// The backend and namespace part of a pool's directory.
pub open spec fn scope_of(p: PoolView) -> Seq<char> {
    match p.namespace {
        Some(ns) => p.backend + "/"@ + ns,
        None => p.backend,
    }
}

/// The pool's names are single path components.
pub open spec fn plain_names(p: PoolView) -> bool {
    one_component(p.backend) && (p.namespace matches Some(ns) ==> one_component(ns))
}

/// A path is the pool's directory and the tail.
pub proof fn lemma_path_shape(p: PoolView, h: Seq<char>)
    requires
        plain_names(p),
        full_hash(h),
    ensures
        p.path_of(h) == chunks_dir(p.root) + "/"@ + scope_of(p) + "/"@ + tail_of(h),
{
    lemma_full_hash(h);
    reveal_strlit("chunks");
    reveal_strlit("/");
    reveal_strlit(".dat");
    let top = chunks_dir(p.root);
    assert(top.last() == 's');
    lemma_joined_component(top, p.backend);
    let base = text::joined(top, p.backend);
    let last = p.backend.len() - 1;
    assert(p.backend[last] != '/');
    match p.namespace {
        Some(ns) => {
            lemma_joined_component(base, ns);
            assert(ns[ns.len() - 1] != '/');
        },
        None => {},
    }
    let dir = p.dir();
    let s1 = h.subrange(0, 2);
    let s2 = h.subrange(2, 4);
    assert(pool::is_hex_char(h[0]) && pool::is_hex_char(h[1]));
    assert(pool::is_hex_char(h[2]) && pool::is_hex_char(h[3]));
    assert(s1[0] == h[0] && s1[1] == h[1] && s2[0] == h[2] && s2[1] == h[3]);
    lemma_joined_component(dir, s1);
    let d1 = text::joined(dir, s1);
    lemma_joined_component(d1, s2);
    let d2 = text::joined(d1, s2);
    let file = h + ".dat"@;
    assert(file[0] == h[0]);
    lemma_joined_component(d2, file);
    assert(p.path_of(h) =~= top + "/"@ + scope_of(p) + "/"@ + tail_of(h));
}

/// Two scopes of one-component names are equal only if their names are.
proof fn lemma_scope_is_injective(p: PoolView, q: PoolView)
    requires
        plain_names(p),
        plain_names(q),
        scope_of(p) == scope_of(q),
    ensures
        p.backend == q.backend,
        p.namespace == q.namespace,
{
    reveal_strlit("/");
    let s = scope_of(p);
    let a = p.backend;
    let b = q.backend;
    if a.len() < b.len() {
        assert(s[a.len() as int] == b[a.len() as int]);
        assert(p.namespace is Some) by {
            if p.namespace is None {
                assert(s.len() == a.len());
            }
        }
        assert(s[a.len() as int] == '/');
    } else if b.len() < a.len() {
        assert(s[b.len() as int] == a[b.len() as int]);
        assert(q.namespace is Some) by {
            if q.namespace is None {
                assert(s.len() == b.len());
            }
        }
        assert(s[b.len() as int] == '/');
    }
    assert(a =~= s.subrange(0, a.len() as int));
    assert(b =~= s.subrange(0, b.len() as int));
    if p.namespace is Some && q.namespace is Some {
        let x = p.namespace.unwrap();
        let y = q.namespace.unwrap();
        assert(x =~= s.subrange(a.len() as int + 1, s.len() as int));
        assert(y =~= s.subrange(b.len() as int + 1, s.len() as int));
    }
}

/// Pools under one root do not share chunk files: two chunks share a path only if they are
/// the same chunk of the same backend and namespace.
pub proof fn law_chunk_files_do_not_collide(p: PoolView, a: Seq<char>, q: PoolView, b: Seq<char>)
    requires
        p.root == q.root,
        plain_names(p),
        plain_names(q),
        full_hash(a),
        full_hash(b),
        p.path_of(a) == q.path_of(b),
    ensures
        p.backend == q.backend,
        p.namespace == q.namespace,
        a == b,
{
    lemma_path_shape(p, a);
    lemma_path_shape(q, b);
    lemma_full_hash(a);
    lemma_full_hash(b);
    let top = chunks_dir(p.root) + "/"@;
    lemma_split_at_tail(
        top + scope_of(p) + "/"@,
        tail_of(a),
        top + scope_of(q) + "/"@,
        tail_of(b),
    );
    lemma_tail_is_injective(a, b);
    lemma_split_at_tail(top + scope_of(p), "/"@, top + scope_of(q), "/"@);
    assert(scope_of(p) =~= (top + scope_of(p)).skip(top.len() as int));
    assert(scope_of(q) =~= (top + scope_of(q)).skip(top.len() as int));
    lemma_scope_is_injective(p, q);
}

/// The file of a sealed chunk is listed under its address.
pub proof fn law_sealed_chunk_is_listed(digest: Seq<u8>)
    requires
        digest.len() == 32,
    ensures
        full_hash(hash::hex_text(digest)),
        pool::named_hash(hash::hex_text(digest) + ".dat"@) == Some(hash::hex_text(digest)),
{
    let h = hash::hex_text(digest);
    reveal_strlit(".dat");
    assert forall|i: int| 0 <= i < 64 implies pool::is_hex_char(#[trigger] h[i]) by {
        let v = if i % 2 == 0 { digest[i / 2] as int / 16 } else { digest[i / 2] as int % 16 };
        assert(0 <= v < 16);
        assert(h[i] == hash::hex_digit(v));
    }
    let name = h + ".dat"@;
    assert(".dat"@ =~= name.subrange(name.len() - 4, name.len() as int));
    assert forall|i: int| 0 <= i < 64 implies pool::is_hex_char(#[trigger] name[i]) by {
        assert(pool::is_hex_char(h[i]));
    }
    assert(name.subrange(0, 64) =~= h);
}

/// A temporary file is never listed as a chunk.
pub proof fn law_temporary_file_is_no_chunk(name: Seq<char>, pid: u32, n: u64)
    ensures
        pool::named_hash(pool::tmp_of(name, pid, n)) is None,
{
    let t = pool::tmp_of(name, pid, n);
    reveal_strlit(".tmp");
    reveal_strlit(".dat");
    if ".dat"@.is_suffix_of(t) {
        let tail = t.subrange(t.len() - 4, t.len() as int);
        assert(tail =~= ".dat"@);
        assert(tail[1] == ".tmp"@[1]);
        assert(tail[1] == ".dat"@[1]);
    }
}

/// Decimal numerals are distinct.
pub proof fn lemma_decimal_is_injective(a: nat, b: nat)
    requires
        text::decimal(a) == text::decimal(b),
    ensures
        a == b,
    decreases a,
{
    lemma_decimal_len(a);
    lemma_decimal_len(b);
    if a < 10 && b < 10 {
        assert(text::decimal(a)[0] == text::digit_char(a));
        assert(text::decimal(b)[0] == text::digit_char(b));
    } else if a >= 10 && b >= 10 {
        let x = text::decimal(a);
        let y = text::decimal(b);
        assert(x.last() == text::digit_char(a % 10));
        assert(y.last() == text::digit_char(b % 10));
        assert(x.drop_last() =~= text::decimal(a / 10));
        assert(y.drop_last() =~= text::decimal(b / 10));
        lemma_decimal_is_injective(a / 10, b / 10);
    }
}

/// A numeral has one digit exactly for numbers below ten.
proof fn lemma_decimal_len(n: nat)
    ensures
        n < 10 ==> text::decimal(n).len() == 1,
        n >= 10 ==> text::decimal(n).len() >= 2,
    decreases n,
{
    if n >= 10 {
        lemma_decimal_len(n / 10);
    }
}

/// Two inserts of one process never use the same temporary file.
pub proof fn law_temporary_files_do_not_collide(path: Seq<char>, pid: u32, n: u64, m: u64)
    requires
        pool::tmp_of(path, pid, n) == pool::tmp_of(path, pid, m),
    ensures
        n == m,
{
    let named = if pool::bare_name(path) {
        path + ".dat"@
    } else {
        path
    };
    let head = named + "."@ + text::decimal(pid as nat) + "."@;
    lemma_split_at_tail(
        head + text::decimal(n as nat),
        ".tmp"@,
        head + text::decimal(m as nat),
        ".tmp"@,
    );
    assert(text::decimal(n as nat) =~= (head + text::decimal(n as nat)).skip(head.len() as int));
    assert(text::decimal(m as nat) =~= (head + text::decimal(m as nat)).skip(head.len() as int));
    lemma_decimal_is_injective(n as nat, m as nat);
}

/// Every listed chunk has a full hash, which decodes.
pub proof fn law_listed_chunks_decode(entries: Seq<pool::FileEntry>, i: int)
    requires
        0 <= i < pool::listed_chunks(entries).len(),
    ensures
        full_hash(pool::listed_chunks(entries)[i].0),
        hash::decoded(pool::listed_chunks(entries)[i].0) is Some,
    decreases entries.len(),
{
    let front = entries.drop_last();
    if i < pool::listed_chunks(front).len() {
        law_listed_chunks_decode(front, i);
    } else {
        let name = entries.last().name.unwrap()@;
        let h = pool::listed_chunks(entries)[i].0;
        assert(h == name.subrange(0, 64));
        assert forall|j: int| 0 <= j < 64 implies pool::is_hex_char(#[trigger] h[j]) by {
            assert(pool::is_hex_char(name[j]));
        }
        pool::lemma_named_hash_decodes(name);
    }
}

/// A directory as it stands before a name: with a separator at its end.
pub open spec fn slashed(dir: Seq<char>) -> Seq<char> {
    if dir.len() == 0 || dir.last() == '/' {
        dir
    } else {
        dir + "/"@
    }
}

/// Below any directory, a chunk's file is its tail.
proof fn lemma_path_below(p: PoolView, h: Seq<char>)
    requires
        full_hash(h),
    ensures
        p.path_of(h) == slashed(p.dir()) + tail_of(h),
{
    lemma_full_hash(h);
    reveal_strlit("/");
    reveal_strlit(".dat");
    let dir = p.dir();
    let s1 = h.subrange(0, 2);
    let s2 = h.subrange(2, 4);
    assert(pool::is_hex_char(h[0]) && pool::is_hex_char(h[1]));
    assert(pool::is_hex_char(h[2]) && pool::is_hex_char(h[3]));
    assert(s1[0] == h[0] && s1[1] == h[1] && s2[0] == h[2] && s2[1] == h[3]);
    let d1 = text::joined(dir, s1);
    assert(d1 =~= slashed(dir) + s1);
    lemma_joined_component(d1, s2);
    let d2 = text::joined(d1, s2);
    let file = h + ".dat"@;
    assert(file[0] == h[0]);
    lemma_joined_component(d2, file);
    assert(p.path_of(h) =~= slashed(dir) + tail_of(h));
}

/// The file of a chunk has a name before its ending.
pub proof fn lemma_file_is_not_bare(p: PoolView, h: Seq<char>)
    requires
        full_hash(h),
    ensures
        !pool::bare_name(p.path_of(h)),
{
    lemma_path_below(p, h);
    lemma_full_hash(h);
    reveal_strlit("/.dat");
    reveal_strlit(".dat");
    let path = p.path_of(h);
    let n = path.len() as int;
    let head = slashed(p.dir());
    let tail = tail_of(h);
    assert(path =~= head + tail);
    assert(tail[69] == h[63]);
    assert(path[n - 5] == tail[69]);
    assert(pool::is_hex_char(h[63]));
    if "/.dat"@.is_suffix_of(path) {
        assert("/.dat"@[0] == path[n - 5]);
    }
}

/// Pools in different directories share no chunk file, and neither do different chunks of
/// one pool.
pub proof fn law_pools_apart_share_no_file(p: PoolView, a: Seq<char>, q: PoolView, b: Seq<char>)
    requires
        full_hash(a),
        full_hash(b),
        slashed(p.dir()) != slashed(q.dir()) || a != b,
    ensures
        p.path_of(a) != q.path_of(b),
{
    lemma_path_below(p, a);
    lemma_path_below(q, b);
    lemma_full_hash(a);
    lemma_full_hash(b);
    if p.path_of(a) == q.path_of(b) {
        lemma_split_at_tail(slashed(p.dir()), tail_of(a), slashed(q.dir()), tail_of(b));
        lemma_tail_is_injective(a, b);
    }
}

/// Under one root, another backend or another namespace means another directory.
pub proof fn law_scopes_have_their_own_directories(p: PoolView, q: PoolView)
    requires
        p.root == q.root,
        plain_names(p),
        plain_names(q),
        p.backend != q.backend || p.namespace != q.namespace,
    ensures
        slashed(p.dir()) != slashed(q.dir()),
{
    if slashed(p.dir()) == slashed(q.dir()) {
        let h = Seq::new(64, |i: int| '0');
        lemma_path_below(p, h);
        lemma_path_below(q, h);
        law_chunk_files_do_not_collide(p, h, q, h);
    }
}

/// Whether a pool has the file of a chunk.
pub open spec fn has_chunk(files: Map<Seq<char>, Seq<u8>>, p: PoolView, h: Seq<char>) -> bool {
    files.contains_key(p.path_of(h))
}

/// The files after `bytes` are written where a plan says: a file that is there already is left
/// alone.
pub open spec fn placed(
    files: Map<Seq<char>, Seq<u8>>,
    path: Seq<char>,
    bytes: Seq<u8>,
) -> Map<Seq<char>, Seq<u8>> {
    if files.contains_key(path) {
        files
    } else {
        files.insert(path, bytes)
    }
}

/// An inserted chunk is there afterwards, whether or not it was new. It is reported as new
/// exactly if it was absent before. Every other chunk of the pool, and every chunk of a pool
/// in another directory, is there afterwards exactly if it was there before.
pub proof fn law_inserted_chunk_is_there(
    files: Map<Seq<char>, Seq<u8>>,
    p: PoolView,
    h: Seq<char>,
    bytes: Seq<u8>,
    plan: InsertPlan,
    reported: (String, bool),
    q: PoolView,
    other: Seq<char>,
)
    requires
        full_hash(h),
        plan.hash@ == h,
        plan.path@ == p.path_of(h),
        reported == (plan.hash, !has_chunk(files, p, h)),
        full_hash(other),
    ensures
        ({
            let after = placed(files, plan.path@, bytes);
            &&& has_chunk(after, p, h)
            &&& reported.0@ == h
            &&& reported.1 <==> !has_chunk(files, p, h)
            &&& slashed(p.dir()) != slashed(q.dir()) || other != h ==> has_chunk(after, q, other)
                == has_chunk(files, q, other)
        }),
{
    if slashed(p.dir()) != slashed(q.dir()) || other != h {
        law_pools_apart_share_no_file(p, h, q, other);
    }
}

/// The path that some bytes are sealed at.
pub open spec fn seal_path(p: PoolView, bytes: Seq<u8>) -> Seq<char> {
    p.path_of(hash::content_address(bytes))
}

/// The files after bytes are inserted: a file that is there already is left alone.
pub open spec fn sealed(files: Map<Seq<char>, Seq<u8>>, p: PoolView, bytes: Seq<u8>) -> Map<
    Seq<char>,
    Seq<u8>,
> {
    placed(files, seal_path(p, bytes), bytes)
}

/// Every file of the pool lies at the address of what it holds.
pub open spec fn addressed(files: Map<Seq<char>, Seq<u8>>, p: PoolView) -> bool {
    forall|path: Seq<char>| #[trigger]
        files.contains_key(path) ==> path == seal_path(p, files[path])
}

/// Identical bytes are stored once: inserting them again changes nothing.
pub proof fn law_identical_bytes_are_stored_once(
    files: Map<Seq<char>, Seq<u8>>,
    p: PoolView,
    bytes: Seq<u8>,
)
    ensures
        sealed(sealed(files, p, bytes), p, bytes) == sealed(files, p, bytes),
{
}

/// Bytes that are new to the pool read back as they were inserted, and no other file changes.
pub proof fn law_new_bytes_read_back(
    files: Map<Seq<char>, Seq<u8>>,
    p: PoolView,
    bytes: Seq<u8>,
    other: Seq<char>,
)
    requires
        !files.contains_key(seal_path(p, bytes)),
    ensures
        sealed(files, p, bytes)[seal_path(p, bytes)] == bytes,
        other != seal_path(p, bytes) ==> sealed(files, p, bytes).contains_key(other)
            == files.contains_key(other),
        other != seal_path(p, bytes) && files.contains_key(other) ==> sealed(files, p, bytes)[other]
            == files[other],
{
}

/// Inserting keeps every file at the address of what it holds.
pub proof fn law_inserting_keeps_files_addressed(
    files: Map<Seq<char>, Seq<u8>>,
    p: PoolView,
    bytes: Seq<u8>,
)
    requires
        addressed(files, p),
    ensures
        addressed(sealed(files, p, bytes), p),
{
}

} // verus!
