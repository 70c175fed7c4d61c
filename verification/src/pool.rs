//! The content-addressed chunk pool: where chunks live, what they are called in the object
//! store, and what an insert has to do.
//!
//! A chunk lives at `<root>/chunks/<backend>/[<namespace>/]<aa>/<bb>/<hash>.dat`, where `aa`
//! and `bb` are the first two pairs of digits of its hash. Files are immutable once sealed.

use vstd::prelude::*;

use crate::error::{IoFailure, IoKind};
use crate::hash;
use crate::pins::{self, PinKey, PinKeyView, PinTable};
use crate::pool_laws;
use crate::text;

verus! {

/// A failed pool operation.
#[derive(Debug, Clone, PartialEq, Eq)]
pub enum ChunkPoolError {
    Io(IoFailure),
    /// The bytes do not have the hash they were announced under.
    HashMismatch { expected: String, actual: String },
}

impl ChunkPoolError {
    /// The one-line text of this error.
    pub fn text(&self) -> (r: String)
        ensures
            r@ == match *self {
                ChunkPoolError::Io(e) => "io: "@ + e.message@,
                ChunkPoolError::HashMismatch { expected, actual } =>
                    "content hash mismatch: expected "@ + expected@ + ", got "@ + actual@,
            },
    {
        match self {
            ChunkPoolError::Io(e) => text::concat2("io: ", e.message.as_str()),
            ChunkPoolError::HashMismatch { expected, actual } => {
                let mut s = text::concat2("content hash mismatch: expected ", expected.as_str());
                s.append(", got ");
                s.append(actual.as_str());
                s
            },
        }
    }
}

/// The text can be cut after its second and fourth byte, as far as it has them.
pub open spec fn shardable(h: Seq<char>) -> bool {
    let b = vstd::utf8::encode_utf8(h);
    &&& b.len() >= 2 ==> vstd::utf8::is_char_boundary(b, 2)
    &&& b.len() >= 4 ==> vstd::utf8::is_char_boundary(b, 4)
}

/// The first two bytes of a hash; `00` if it has fewer.
pub open spec fn first_shard(h: Seq<char>) -> Seq<char> {
    let b = vstd::utf8::encode_utf8(h);
    if b.len() >= 2 {
        vstd::utf8::decode_utf8(b.subrange(0, 2))
    } else {
        "00"@
    }
}

/// The next two bytes of a hash; `00` if it has fewer.
pub open spec fn second_shard(h: Seq<char>) -> Seq<char> {
    let b = vstd::utf8::encode_utf8(h);
    if b.len() >= 4 {
        vstd::utf8::decode_utf8(b.subrange(2, 4))
    } else {
        "00"@
    }
}

/// The object key of a chunk.
pub open spec fn key_of(namespace: Option<Seq<char>>, h: Seq<char>) -> Seq<char> {
    match namespace {
        Some(ns) => "chunks/"@ + ns + "/"@ + first_shard(h) + "/"@ + second_shard(h) + "/"@ + h
            + ".dat"@,
        None => "chunks/"@ + first_shard(h) + "/"@ + second_shard(h) + "/"@ + h + ".dat"@,
    }
}

/// The abstract pool.
pub struct PoolView {
    pub root: Seq<char>,
    pub backend: Seq<char>,
    pub namespace: Option<Seq<char>>,
}

impl PoolView {
    /// The directory of the pool.
    pub open spec fn dir(self) -> Seq<char> {
        let base = text::joined(text::joined(self.root, "chunks"@), self.backend);
        match self.namespace {
            Some(ns) => text::joined(base, ns),
            None => base,
        }
    }

    /// The file of a chunk.
    pub open spec fn path_of(self, h: Seq<char>) -> Seq<char> {
        text::joined(
            text::joined(text::joined(self.dir(), first_shard(h)), second_shard(h)),
            h + ".dat"@,
        )
    }

    /// The pin key of a chunk.
    pub open spec fn pin_key(self, h: Seq<char>) -> PinKeyView {
        PinKeyView { backend: self.backend, namespace: self.namespace, hash: h }
    }
}

/// Cutting the first four bytes leaves the second byte a place to cut.
proof fn lemma_inner_boundary(b: Seq<u8>)
    requires
        vstd::utf8::valid_utf8(b),
        b.len() >= 4,
        vstd::utf8::is_char_boundary(b, 2),
        vstd::utf8::is_char_boundary(b, 4),
    ensures
        vstd::utf8::valid_utf8(b.subrange(0, 4)),
        vstd::utf8::is_char_boundary(b.subrange(0, 4), 2),
{
    let head = b.subrange(0, 4);
    vstd::utf8::valid_utf8_split(b, 4);
    vstd::utf8::is_char_boundary_iff_not_is_continuation_byte(b, 2);
    vstd::utf8::is_char_boundary_iff_not_is_continuation_byte(head, 2);
    assert(head[2] == b[2]);
}

/// The two directory levels of a hash.
pub fn shard_pair(hash_hex: &str) -> (r: (&str, &str))
    requires
        shardable(hash_hex@),
    ensures
        r.0@ == first_shard(hash_hex@),
        r.1@ == second_shard(hash_hex@),
{
    let n: usize = hash_hex.as_bytes().len();
    proof {
        vstd::utf8::encode_utf8_valid_utf8(hash_hex@);
    }
    if n >= 4 {
        let ghost b = vstd::utf8::encode_utf8(hash_hex@);
        proof {
            lemma_inner_boundary(b);
        }
        let (head, _) = hash_hex.split_at(4);
        let (first, second) = head.split_at(2);
        proof {
            assert(b.subrange(0, 4).subrange(0, 2) =~= b.subrange(0, 2));
            assert(b.subrange(0, 4).subrange(2, 4) =~= b.subrange(2, 4));
            vstd::utf8::encode_utf8_decode_utf8(first@);
            vstd::utf8::encode_utf8_decode_utf8(second@);
        }
        (first, second)
    } else if n >= 2 {
        let (first, _) = hash_hex.split_at(2);
        proof {
            vstd::utf8::encode_utf8_decode_utf8(first@);
        }
        (first, "00")
    } else {
        ("00", "00")
    }
}

/// A directory entry at the chunk level of the pool.
#[derive(Debug, Clone, PartialEq, Eq)]
pub struct FileEntry {
    pub is_file: bool,
    /// The name, unless it is not valid text.
    pub name: Option<String>,
    pub size: u64,
}

/// An ASCII hexadecimal digit.
pub open spec fn is_hex_char(c: char) -> bool {
    ('0' <= c && c <= '9') || ('a' <= c && c <= 'f') || ('A' <= c && c <= 'F')
}

/// The hash that a file name spells: 64 hexadecimal digits before `.dat`.
pub open spec fn named_hash(name: Seq<char>) -> Option<Seq<char>> {
    let n = name.len() - 4;
    if n == 64 && ".dat"@.is_suffix_of(name) && forall|i: int|
        0 <= i < 64 ==> is_hex_char(#[trigger] name[i]) {
        Some(name.subrange(0, 64))
    } else {
        None
    }
}

/// The chunk that a directory entry stands for.
pub open spec fn entry_chunk(e: FileEntry) -> Option<(Seq<char>, u64)> {
    match e.name {
        Some(name) => match named_hash(name@) {
            Some(h) if e.is_file => Some((h, e.size)),
            _ => None,
        },
        None => None,
    }
}

/// The chunks among directory entries, in order.
pub open spec fn listed_chunks(entries: Seq<FileEntry>) -> Seq<(Seq<char>, u64)>
    decreases entries.len(),
{
    if entries.len() == 0 {
        Seq::empty()
    } else {
        let front = listed_chunks(entries.drop_last());
        match entry_chunk(entries.last()) {
            Some(c) => front.push(c),
            None => front,
        }
    }
}

/// The view of a list of chunks.
pub open spec fn chunk_views(chunks: Seq<(String, u64)>) -> Seq<(Seq<char>, u64)> {
    chunks.map_values(|c: (String, u64)| (c.0@, c.1))
}

/// The view of a list of decoded chunks.
pub open spec fn digest_views(chunks: Seq<([u8; 32], u64)>) -> Seq<(Seq<u8>, u64)> {
    chunks.map_values(|c: ([u8; 32], u64)| (c.0@, c.1))
}

/// The decoded form of listed chunks.
pub open spec fn decoded_chunks(chunks: Seq<(Seq<char>, u64)>) -> Seq<(Seq<u8>, u64)> {
    chunks.map_values(|c: (Seq<char>, u64)| (hash::decoded(c.0).unwrap(), c.1))
}

/// Whether `c` is an ASCII hexadecimal digit.
fn hex_char(c: char) -> (r: bool)
    ensures
        r == is_hex_char(c),
{
    ('0' <= c && c <= '9') || ('a' <= c && c <= 'f') || ('A' <= c && c <= 'F')
}

/// The hash that a file name spells.
pub fn chunk_file_hash(name: &str) -> (r: Option<String>)
    ensures
        match named_hash(name@) {
            Some(h) => r matches Some(s) && s@ == h,
            None => r is None,
        },
{
    proof {
        reveal_strlit(".dat");
    }
    let chars = text::chars_of(name);
    if chars.len() != 68 || !text::ends_with(name, ".dat") {
        return None;
    }
    let mut i: usize = 0;
    while i < 64
        invariant
            i <= 64,
            chars@ == name@,
            chars@.len() == 68,
            forall|j: int| 0 <= j < i ==> is_hex_char(#[trigger] name@[j]),
        decreases 64 - i,
    {
        if !hex_char(chars[i]) {
            return None;
        }
        i += 1;
    }
    Some(name.substring_char(0, 64).to_owned())
}

/// A spelled hash decodes.
pub proof fn lemma_named_hash_decodes(name: Seq<char>)
    requires
        named_hash(name) is Some,
    ensures
        hash::decoded(named_hash(name).unwrap()) is Some,
{
    let h = named_hash(name).unwrap();
    assert forall|i: int| 0 <= i < h.len() implies '\0' <= #[trigger] h[i] <= '\u{7f}' by {
        assert(is_hex_char(name[i]));
    }
    vstd::utf8::is_ascii_chars_encode_utf8(h);
    let b = vstd::utf8::encode_utf8(h);
    assert forall|i: int| 0 <= i < 64 implies hash::digit_value(#[trigger] b[i]) is Some by {
        assert(is_hex_char(name[i]));
        assert(h[i] as u8 == b[i]);
    }
}

/// The chunk that a directory entry stands for, with its hash decoded.
pub fn decode_entry(entry: &FileEntry) -> (r: Option<([u8; 32], u64)>)
    ensures
        match entry_chunk(*entry) {
            Some(c) => r matches Some(d) && hash::decoded(c.0) == Some(d.0@) && d.1 == c.1,
            None => r is None,
        },
{
    if !entry.is_file {
        return None;
    }
    match &entry.name {
        Some(name) => match chunk_file_hash(name.as_str()) {
            Some(h) => {
                proof {
                    lemma_named_hash_decodes(name@);
                }
                match hash::decode_hash_hex(h.as_str()) {
                    Some(digest) => Some((digest, entry.size)),
                    None => None,
                }
            },
            None => None,
        },
        None => None,
    }
}

/// What a fresh insert writes, and where.
#[derive(Debug, Clone, PartialEq, Eq)]
pub struct InsertPlan {
    pub hash: String,
    pub path: String,
}

impl InsertPlan {
    /// The outcome once it is known whether the file was there: the hash, and whether the
    /// chunk is new.
    pub fn outcome(self, present: bool) -> (r: (String, bool))
        ensures
            r == (self.hash, !present),
    {
        (self.hash, !present)
    }
}

/// What inserting a staged file has to do next.
#[derive(Debug, Clone, Copy, PartialEq, Eq, Structural)]
pub enum StagedStep {
    /// The chunk is there: remove the staged file and be done.
    RemoveStaged,
    /// Move the staged file into place.
    Rename,
    /// The file cannot be moved: copy it beside its place, move the copy into place, then
    /// remove the staged file.
    CopyThenRemoveStaged,
    /// Nothing more to do.
    Done,
}

/// First step of inserting a staged file.
pub fn staged_insert(present: bool) -> (r: StagedStep)
    ensures
        r == if present {
            StagedStep::RemoveStaged
        } else {
            StagedStep::Rename
        },
{
    if present {
        StagedStep::RemoveStaged
    } else {
        StagedStep::Rename
    }
}

/// The step after the move was tried.
pub fn after_rename(result: Result<(), IoFailure>) -> (r: Result<StagedStep, ChunkPoolError>)
    ensures
        match result {
            Ok(_) => r == Ok::<StagedStep, ChunkPoolError>(StagedStep::Done),
            Err(e) => if e.kind is CrossesDevices {
                r == Ok::<StagedStep, ChunkPoolError>(StagedStep::CopyThenRemoveStaged)
            } else {
                r == Err::<StagedStep, ChunkPoolError>(ChunkPoolError::Io(e))
            },
        },
{
    match result {
        Ok(_) => Ok(StagedStep::Done),
        Err(e) => match e.kind {
            IoKind::CrossesDevices => Ok(StagedStep::CopyThenRemoveStaged),
            _ => Err(ChunkPoolError::Io(e)),
        },
    }
}

/// The result of a removal: a file that was gone already counts as removed.
pub fn after_remove(result: Result<(), IoFailure>) -> (r: Result<(), ChunkPoolError>)
    ensures
        match result {
            Ok(_) => r is Ok,
            Err(e) => if e.kind is NotFound {
                r is Ok
            } else {
                r matches Err(ChunkPoolError::Io(f)) && f == e
            },
        },
{
    match result {
        Ok(_) => Ok(()),
        Err(e) => match e.kind {
            IoKind::NotFound => Ok(()),
            _ => Err(ChunkPoolError::Io(e)),
        },
    }
}

/// Whether bytes with the address `actual` may be stored under `expected`.
pub fn check_address(expected: &str, actual: String) -> (r: Result<(), ChunkPoolError>)
    ensures
        expected@ == actual@ ==> r is Ok,
        expected@ != actual@ ==> (r matches Err(
            ChunkPoolError::HashMismatch { expected: e, actual: a },
        ) && e@ == expected@ && a@ == actual@),
{
    if text::same(expected, actual.as_str()) {
        Ok(())
    } else {
        Err(ChunkPoolError::HashMismatch { expected: expected.to_owned(), actual })
    }
}

/// Holds one pin; give it back with [`PoolPinGuard::release`].
#[derive(Debug)]
pub struct PoolPinGuard {
    key: PinKey,
}

impl PoolPinGuard {
    /// What is pinned.
    pub closed spec fn pinned(&self) -> PinKeyView {
        self.key@
    }

    /// Gives the pin back.
    pub fn release(self, table: &mut PinTable)
        requires
            old(table).wf(),
        ensures
            final(table).wf(),
            pins::pinned_once_less(*old(table), *final(table), self.pinned()),
    {
        table.unpin(&self.key);
    }
}

/// The pool of one backend, optionally of one namespace in it.
#[derive(Debug, Clone)]
pub struct ChunkPool {
    root: String,
    backend_name: String,
    namespace: Option<String>,
}

impl View for ChunkPool {
    type V = PoolView;

    closed spec fn view(&self) -> PoolView {
        PoolView {
            root: self.root@,
            backend: self.backend_name@,
            namespace: match self.namespace {
                Some(ns) => Some(ns@),
                None => None,
            },
        }
    }
}

impl ChunkPool {
    /// The pool shared by everything on a backend.
    pub fn new(root: &str, backend_name: &str) -> (r: Self)
        ensures
            r@ == (PoolView { root: root@, backend: backend_name@, namespace: None }),
    {
        ChunkPool { root: root.to_owned(), backend_name: backend_name.to_owned(), namespace: None }
    }

    /// The pool of one namespace on a backend.
    pub fn new_namespaced(root: &str, backend_name: &str, namespace: &str) -> (r: Self)
        ensures
            r@ == (PoolView {
                root: root@,
                backend: backend_name@,
                namespace: Some(namespace@),
            }),
    {
        ChunkPool {
            root: root.to_owned(),
            backend_name: backend_name.to_owned(),
            namespace: Some(namespace.to_owned()),
        }
    }

    /// The directory above `chunks/`.
    pub fn root(&self) -> (r: &str)
        ensures
            r@ == self@.root,
    {
        self.root.as_str()
    }

    /// The backend.
    pub fn backend_name(&self) -> (r: &str)
        ensures
            r@ == self@.backend,
    {
        self.backend_name.as_str()
    }

    /// The namespace, if there is one.
    pub fn namespace(&self) -> (r: Option<&str>)
        ensures
            text::opt_text(r) == self@.namespace,
    {
        match &self.namespace {
            Some(ns) => Some(ns.as_str()),
            None => None,
        }
    }

    /// The namespace, if there is one.
    pub fn cartridge_namespace(&self) -> (r: Option<&str>)
        ensures
            text::opt_text(r) == self@.namespace,
    {
        self.namespace()
    }

    /// The directory of the pool.
    pub fn pool_dir(&self) -> (r: String)
        ensures
            r@ == self@.dir(),
    {
        let chunks = text::join_path(self.root.as_str(), "chunks");
        let base = text::join_path(chunks.as_str(), self.backend_name.as_str());
        match &self.namespace {
            Some(ns) => text::join_path(base.as_str(), ns.as_str()),
            None => base,
        }
    }

    /// The file of a chunk, whether or not it exists.
    pub fn store_path(&self, hash_hex: &str) -> (r: String)
        requires
            shardable(hash_hex@),
        ensures
            r@ == self@.path_of(hash_hex@),
    {
        let (s1, s2) = shard_pair(hash_hex);
        let dir = text::join_path(self.pool_dir().as_str(), s1);
        let shard = text::join_path(dir.as_str(), s2);
        let file = text::concat2(hash_hex, ".dat");
        text::join_path(shard.as_str(), file.as_str())
    }

    /// A temporary file beside a chunk's own, for process `pid` and its `n`-th insert.
    pub fn tmp_path(&self, hash_hex: &str, pid: u32, n: u64) -> (r: String)
        requires
            shardable(hash_hex@),
        ensures
            r@ == tmp_of(self@.path_of(hash_hex@), pid, n),
    {
        let mut s = self.store_path(hash_hex);
        if text::same(s.as_str(), ".dat") || text::ends_with(s.as_str(), "/.dat") {
            s.append(".dat");
        }
        s.append(".");
        s.append(text::decimal_text(pid as u64).as_str());
        s.append(".");
        s.append(text::decimal_text(n).as_str());
        s.append(".tmp");
        s
    }

    /// The object key of a chunk in this pool.
    pub fn object_key(&self, hash_hex: &str) -> (r: String)
        requires
            shardable(hash_hex@),
        ensures
            r@ == key_of(self@.namespace, hash_hex@),
    {
        ChunkPool::object_key_for(self.namespace(), hash_hex)
    }

    /// The object key of a chunk in a given namespace.
    pub fn object_key_for(namespace: Option<&str>, hash_hex: &str) -> (r: String)
        requires
            shardable(hash_hex@),
        ensures
            r@ == key_of(text::opt_text(namespace), hash_hex@),
    {
        let (s1, s2) = shard_pair(hash_hex);
        let mut s = "chunks/".to_owned();
        if let Some(ns) = namespace {
            s.append(ns);
            s.append("/");
        }
        s.append(s1);
        s.append("/");
        s.append(s2);
        s.append("/");
        s.append(hash_hex);
        s.append(".dat");
        s
    }

    /// The object key of a chunk in this pool.
    pub fn object_key_in_store(&self, hash_hex: &str) -> (r: String)
        requires
            shardable(hash_hex@),
        ensures
            r@ == key_of(self@.namespace, hash_hex@),
    {
        self.object_key(hash_hex)
    }

    /// The content address of `bytes`, and the file they belong in.
    pub fn insert_bytes(&self, bytes: &[u8]) -> (r: InsertPlan)
        ensures
            r.hash@ == hash::content_address(bytes@),
            pool_laws::full_hash(r.hash@),
            r.path@ == self@.path_of(r.hash@),
    {
        let address = hash::content_hash(bytes);
        proof {
            hash::lemma_address_is_ascii(hash::blake3_of(bytes@));
            pool_laws::law_sealed_chunk_is_listed(hash::blake3_of(bytes@));
            lemma_ascii_is_shardable(address@);
        }
        let path = self.store_path(address.as_str());
        InsertPlan { hash: address, path }
    }

    /// Whether bytes from elsewhere have to be written under `expected_hash`. A file that is
    /// there already is authoritative, and the bytes are not even looked at; otherwise they
    /// must have the announced address.
    pub fn insert_verified_bytes(
        &self,
        expected_hash: &str,
        bytes: &[u8],
        present: bool,
    ) -> (r: Result<bool, ChunkPoolError>)
        ensures
            r == Ok::<bool, ChunkPoolError>(false) <==> present,
            r == Ok::<bool, ChunkPoolError>(true) <==> !present && hash::content_address(bytes@)
                == expected_hash@,
            !present && hash::content_address(bytes@) != expected_hash@ ==> (r matches Err(
                ChunkPoolError::HashMismatch { expected, actual },
            ) && expected@ == expected_hash@ && actual@ == hash::content_address(bytes@)),
    {
        if present {
            return Ok(false);
        }
        match check_address(expected_hash, hash::content_hash(bytes)) {
            Ok(()) => Ok(true),
            Err(e) => Err(e),
        }
    }

    /// Pins a chunk. While a pin is held, the chunk's file is not to be removed.
    pub fn pin(&self, table: &mut PinTable, hash_hex: &str) -> (r: PoolPinGuard)
        requires
            old(table).wf(),
            old(table).count(self@.pin_key(hash_hex@)) < u32::MAX,
        ensures
            final(table).wf(),
            r.pinned() == self@.pin_key(hash_hex@),
            pins::pinned_once_more(*old(table), *final(table), self@.pin_key(hash_hex@)),
    {
        let key = PinKey::new(self.backend_name.as_str(), self.namespace(), hash_hex);
        table.pin(&key);
        PoolPinGuard { key }
    }

    /// Whether a chunk of this pool is pinned.
    pub fn is_pinned(&self, table: &PinTable, hash_hex: &str) -> (r: bool)
        requires
            table.wf(),
        ensures
            r == (table.count(self@.pin_key(hash_hex@)) > 0),
    {
        ChunkPool::is_pinned_for(table, self.backend_name.as_str(), self.namespace(), hash_hex)
    }

    /// Whether a chunk is pinned.
    pub fn is_pinned_for(
        table: &PinTable,
        backend: &str,
        namespace: Option<&str>,
        hash_hex: &str,
    ) -> (r: bool)
        requires
            table.wf(),
        ensures
            r == (table.count(
                PinKeyView { backend: backend@, namespace: text::opt_text(namespace), hash: hash_hex@ },
            ) > 0),
    {
        table.is_pinned(&PinKey::new(backend, namespace, hash_hex))
    }

    /// The chunks among the pool's directory entries, with their sizes.
    pub fn iter_chunks(&self, entries: &Vec<FileEntry>) -> (r: Vec<(String, u64)>)
        ensures
            chunk_views(r@) == listed_chunks(entries@),
    {
        let mut out: Vec<(String, u64)> = Vec::new();
        let mut i: usize = 0;
        proof {
            assert(entries@.take(0) =~= Seq::<FileEntry>::empty());
            assert(chunk_views(out@) =~= Seq::empty());
        }
        while i < entries.len()
            invariant
                i <= entries@.len(),
                chunk_views(out@) == listed_chunks(entries@.take(i as int)),
            decreases entries@.len() - i,
        {
            let entry = &entries[i];
            proof {
                let next = entries@.take(i + 1);
                assert(next.drop_last() =~= entries@.take(i as int));
                assert(next.last() == entry);
            }
            let ghost before = out@;
            if entry.is_file {
                if let Some(name) = &entry.name {
                    if let Some(h) = chunk_file_hash(name.as_str()) {
                        out.push((h, entry.size));
                        assert(chunk_views(out@) =~= chunk_views(before).push((h@, entry.size)));
                    }
                }
            }
            i += 1;
        }
        assert(entries@.take(i as int) =~= entries@);
        out
    }

    /// As [`ChunkPool::iter_chunks`], with the hashes decoded.
    pub fn for_each_chunk(&self, entries: &Vec<FileEntry>) -> (r: Vec<([u8; 32], u64)>)
        ensures
            digest_views(r@) == decoded_chunks(listed_chunks(entries@)),
    {
        let mut out: Vec<([u8; 32], u64)> = Vec::new();
        let mut i: usize = 0;
        proof {
            assert(entries@.take(0) =~= Seq::<FileEntry>::empty());
            assert(digest_views(out@) =~= decoded_chunks(listed_chunks(entries@.take(0))));
        }
        while i < entries.len()
            invariant
                i <= entries@.len(),
                digest_views(out@) == decoded_chunks(listed_chunks(entries@.take(i as int))),
            decreases entries@.len() - i,
        {
            let ghost before = out@;
            let ghost front = listed_chunks(entries@.take(i as int));
            proof {
                let next = entries@.take(i + 1);
                assert(next.drop_last() =~= entries@.take(i as int));
                assert(next.last() == entries@[i as int]);
            }
            match decode_entry(&entries[i]) {
                Some(chunk) => {
                    out.push(chunk);
                    proof {
                        let c = entry_chunk(entries@[i as int]).unwrap();
                        assert(digest_views(out@) =~= digest_views(before).push(
                            (chunk.0@, chunk.1),
                        ));
                        assert(decoded_chunks(front.push(c)) =~= decoded_chunks(front).push(
                            (hash::decoded(c.0).unwrap(), c.1),
                        ));
                    }
                },
                None => {},
            }
            i += 1;
        }
        assert(entries@.take(i as int) =~= entries@);
        out
    }
}

/// The file name is `.dat` alone. It counts as a stem without an extension.
pub open spec fn bare_name(path: Seq<char>) -> bool {
    path == ".dat"@ || "/.dat"@.is_suffix_of(path)
}

/// A temporary name beside `path`: its extension becomes `dat`, the two numbers and `tmp`.
pub open spec fn tmp_of(path: Seq<char>, pid: u32, n: u64) -> Seq<char> {
    let named = if bare_name(path) {
        path + ".dat"@
    } else {
        path
    };
    named + "."@ + text::decimal(pid as nat) + "."@ + text::decimal(n as nat) + ".tmp"@
}

/// ASCII text can be cut anywhere.
pub proof fn lemma_ascii_is_shardable(h: Seq<char>)
    requires
        vstd::utf8::is_ascii_chars(h),
    ensures
        shardable(h),
        h.len() >= 4 ==> first_shard(h) == h.subrange(0, 2) && second_shard(h) == h.subrange(2, 4),
{
    let b = vstd::utf8::encode_utf8(h);
    vstd::utf8::encode_utf8_valid_utf8(h);
    vstd::utf8::is_ascii_chars_encode_utf8(h);
    vstd::utf8::is_char_boundary_start_end_of_seq(b);
    assert forall|i: int| 0 <= i < b.len() implies #[trigger] vstd::utf8::is_char_boundary(b, i) by {
        assert(h[i] as u8 == b[i]);
        vstd::utf8::is_char_boundary_iff_not_is_continuation_byte(b, i);
    }
    if h.len() >= 4 {
        lemma_ascii_piece(h, 0, 2);
        lemma_ascii_piece(h, 2, 4);
    }
}

/// A piece of an ASCII text is encoded by the same piece of its encoding.
pub proof fn lemma_ascii_piece(h: Seq<char>, i: int, j: int)
    requires
        vstd::utf8::is_ascii_chars(h),
        0 <= i <= j <= h.len(),
    ensures
        vstd::utf8::decode_utf8(vstd::utf8::encode_utf8(h).subrange(i, j)) == h.subrange(i, j),
{
    let p = h.subrange(i, j);
    let b = vstd::utf8::encode_utf8(h);
    vstd::utf8::is_ascii_chars_encode_utf8(h);
    assert(vstd::utf8::is_ascii_chars(p)) by {
        assert forall|k: int| 0 <= k < p.len() implies '\0' <= #[trigger] p[k] <= '\u{7f}' by {
            assert('\0' <= h[i + k] <= '\u{7f}');
        }
    }
    vstd::utf8::is_ascii_chars_encode_utf8(p);
    assert(vstd::utf8::encode_utf8(p) =~= b.subrange(i, j)) by {
        assert forall|k: int| 0 <= k < p.len() implies vstd::utf8::encode_utf8(p)[k]
            == b.subrange(i, j)[k] by {
            assert(p[k] as u8 == vstd::utf8::encode_utf8(p)[k]);
            assert(h[i + k] as u8 == b[i + k]);
        }
    }
    vstd::utf8::encode_utf8_decode_utf8(p);
}

} // verus!
