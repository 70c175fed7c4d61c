//! What the remote backends share around their provider calls: the stored form of a chunk,
//! relative listings, and results of parallel downloads.

use vstd::prelude::*;

use crate::caching::UploadOutcome;
use crate::compression::{self, CompressionAlgo, CompressionConfig};
use crate::error::ObjectStoreError;
use crate::helpers;
use crate::scan;
use crate::text;

verus! {

/// Retries of an upload.
pub const MAX_UPLOAD_RETRIES: u32 = 5;

/// Retries of a download.
pub const MAX_DOWNLOAD_RETRIES: u32 = 3;

/// Downloads that run at the same time.
pub const MAX_CONCURRENT_DOWNLOADS: usize = 8;

/// Metadata key of the compression marker. The marker names the algorithm and never the level:
/// frames describe themselves to the decoder.
pub const MARKER_KEY: &'static str = "compression";

/// A chunk as it is stored.
#[derive(Debug, Clone)]
pub struct StoredChunk {
    pub bytes: Vec<u8>,
    /// What the upload reports.
    pub outcome: UploadOutcome,
    /// Value of the compression marker.
    pub marker: &'static str,
}

/// The marker of an algorithm, or of no compression.
pub open spec fn marker_of(algo: Option<CompressionAlgo>) -> Seq<char> {
    match algo {
        Some(algo) => compression::algo_name(algo),
        None => "none"@,
    }
}

/// The marker of an algorithm, or of no compression.
pub fn marker(algo: Option<CompressionAlgo>) -> (r: &'static str)
    ensures
        r@ == marker_of(algo),
{
    match algo {
        Some(algo) => algo.as_str(),
        None => "none",
    }
}

/// The views of metadata pairs.
pub open spec fn pair_views(v: Seq<(String, String)>) -> Seq<(Seq<char>, Seq<char>)> {
    v.map_values(|p: (String, String)| (p.0@, p.1@))
}

/// The bytes that a chunk is stored as, or the message of the codec's failure.
pub open spec fn stored_bytes(config: CompressionConfig, data: Seq<u8>) -> Result<
    Seq<u8>,
    Seq<char>,
> {
    match config.algorithm {
        Some(algo) => compression::compressed(algo, data, config.level as int),
        None => Ok(data),
    }
}

/// Why stored bytes cannot be turned back into a chunk.
pub enum Unreadable {
    /// The codec refused them, with this message.
    Codec(Seq<char>),
    /// The marker names no known algorithm.
    Marker(Seq<char>),
}

/// The chunk that stored bytes hold, going by their marker alone. Bytes without a marker are
/// not compressed.
pub open spec fn chunk_of(marker: Option<Seq<char>>, bytes: Seq<u8>) -> Result<
    Seq<u8>,
    Unreadable,
> {
    match marker {
        None => Ok(bytes),
        Some(m) => if m == "zstd"@ {
            decoded_by(CompressionAlgo::Zstd, bytes)
        } else if m == "lz4"@ {
            decoded_by(CompressionAlgo::Lz4, bytes)
        } else if m == "none"@ {
            Ok(bytes)
        } else {
            Err(Unreadable::Marker(m))
        },
    }
}

/// What an algorithm decodes stored bytes to.
pub open spec fn decoded_by(algo: CompressionAlgo, bytes: Seq<u8>) -> Result<Seq<u8>, Unreadable> {
    match compression::decompressed(algo, bytes) {
        Ok(data) => Ok(data),
        Err(m) => Err(Unreadable::Codec(m)),
    }
}

/// Turns a chunk into its stored form. The stored form holds the chunk, whatever the
/// configuration is when it is read back.
pub fn encode_chunk(config: CompressionConfig, data: &[u8]) -> (r: Result<
    StoredChunk,
    ObjectStoreError,
>)
    ensures
        match stored_bytes(config, data@) {
            Ok(bytes) => r matches Ok(stored) && {
                &&& stored.bytes@ == bytes
                &&& stored.outcome.uncompressed == data@.len()
                &&& stored.outcome.algo == config.algorithm
                &&& stored.outcome.compressed is Some <==> config.algorithm is Some
                &&& stored.outcome.compressed matches Some(n) ==> n == bytes.len()
                &&& stored.marker@ == marker_of(config.algorithm)
            },
            Err(m) => r matches Err(ObjectStoreError::Compression(t)) && t@ == m,
        },
        r matches Ok(stored) ==> (chunk_of(Some(stored.marker@), stored.bytes@) matches Ok(d) && d
            == data@),
{
    let uncompressed: u64 = data.len() as u64;
    proof {
        reveal_strlit("zstd");
        reveal_strlit("lz4");
        reveal_strlit("none");
        reveal_strlit("sldc");
        assert("none"@[0] == 'n' && "zstd"@[0] == 'z');
        assert("lz4"@.len() == 3);
    }
    match config.algorithm {
        Some(algo) => match compression::compress_data(algo, data, config.level) {
            Ok(bytes) => {
                let compressed: u64 = bytes.len() as u64;
                Ok(
                    StoredChunk {
                        bytes,
                        outcome: UploadOutcome {
                            uncompressed,
                            compressed: Some(compressed),
                            algo: Some(algo),
                        },
                        marker: algo.as_str(),
                    },
                )
            },
            Err(e) => Err(e),
        },
        None => {
            Ok(
                StoredChunk {
                    bytes: copy_bytes(data),
                    outcome: UploadOutcome { uncompressed, compressed: None, algo: None },
                    marker: "none",
                },
            )
        },
    }
}

/// A copy of some bytes.
fn copy_bytes(data: &[u8]) -> (r: Vec<u8>)
    ensures
        r@ == data@,
{
    let mut out: Vec<u8> = Vec::new();
    out.extend_from_slice(data);
    assert(out@ =~= data@);
    out
}

/// `r` is what reading stored bytes gives: the chunk, or an error that says why there is none.
pub open spec fn read_as(
    marker: Option<&str>,
    bytes: Seq<u8>,
    r: Result<Vec<u8>, ObjectStoreError>,
) -> bool {
    let named = match marker {
        Some(m) => Some(m@),
        None => None,
    };
    match chunk_of(named, bytes) {
        Ok(data) => r matches Ok(v) && v@ == data,
        Err(Unreadable::Codec(m)) => r matches Err(ObjectStoreError::Compression(t)) && t@ == m,
        Err(Unreadable::Marker(m)) => r matches Err(ObjectStoreError::Other(t)) && t@
            == "unsupported compression type: "@ + m,
    }
}

/// Turns stored bytes back into the chunk.
pub fn decode_chunk(marker: Option<&str>, bytes: Vec<u8>) -> (r: Result<Vec<u8>, ObjectStoreError>)
    ensures
        read_as(marker, bytes@, r),
{
    match marker {
        None => Ok(bytes),
        Some(m) => if text::same(m, "zstd") {
            compression::decompress_data(CompressionAlgo::Zstd, &bytes)
        } else if text::same(m, "lz4") {
            compression::decompress_data(CompressionAlgo::Lz4, &bytes)
        } else if text::same(m, "none") {
            Ok(bytes)
        } else {
            Err(ObjectStoreError::Other(text::concat2("unsupported compression type: ", m)))
        },
    }
}

/// A downloaded manifest; `decoded` is its text, or why its bytes are not UTF-8.
pub fn manifest_text(decoded: Result<String, String>) -> (r: Result<String, ObjectStoreError>)
    ensures
        match decoded {
            Ok(json) => r == Ok::<String, ObjectStoreError>(json),
            Err(m) => r matches Err(ObjectStoreError::Other(t)) && t@ == "manifest not valid UTF-8: "@
                + m@,
        },
{
    match decoded {
        Ok(json) => Ok(json),
        Err(m) => Err(ObjectStoreError::Other(text::concat2("manifest not valid UTF-8: ", &m))),
    }
}

/// Why bytes that are not UTF-8 cannot be read as text.
pub uninterp spec fn utf8_complaint(bytes: Seq<u8>) -> Seq<char>;

/// `String::from_utf8`: the text that the bytes encode, where they are valid UTF-8; otherwise
/// the error's text, named by `utf8_complaint`.
#[verifier::external_body]
fn utf8_text(bytes: Vec<u8>) -> (r: Result<String, String>)
    ensures
        match r {
            Ok(s) => vstd::utf8::valid_utf8(bytes@) && s@ == vstd::utf8::decode_utf8(bytes@),
            Err(m) => !vstd::utf8::valid_utf8(bytes@) && m@ == utf8_complaint(bytes@),
        },
{
    String::from_utf8(bytes).map_err(|e| e.to_string())
}

/// Turns the bytes of a downloaded manifest into its text.
pub fn decode_manifest(bytes: Vec<u8>) -> (r: Result<String, ObjectStoreError>)
    ensures
        match r {
            Ok(json) => vstd::utf8::valid_utf8(bytes@) && json@ == vstd::utf8::decode_utf8(bytes@),
            Err(e) => !vstd::utf8::valid_utf8(bytes@) && (e matches ObjectStoreError::Other(t)
                && t@ == "manifest not valid UTF-8: "@ + utf8_complaint(bytes@)),
        },
{
    manifest_text(utf8_text(bytes))
}

/// The key of a listed object relative to the backend's prefix.
pub fn relative_name(prefix: &str, name: &str) -> (r: String)
    ensures
        r@ == helpers::relative_key(prefix@, name@),
{
    if text::starts_with(name, prefix) {
        let from: usize = text::chars_of(prefix).len();
        let to: usize = text::chars_of(name).len();
        assert(name@.skip(from as int) =~= name@.subrange(from as int, to as int));
        name.substring_char(from, to).to_owned()
    } else {
        name.to_owned()
    }
}

/// The relative keys of the objects that a listing names, in order. An object without a name
/// is passed over.
pub open spec fn listed_keys(prefix: Seq<char>, names: Seq<Option<String>>) -> Seq<Seq<char>>
    decreases names.len(),
{
    if names.len() == 0 {
        Seq::empty()
    } else {
        let before = listed_keys(prefix, names.drop_last());
        match names.last() {
            Some(name) => before.push(helpers::relative_key(prefix, name@)),
            None => before,
        }
    }
}

/// Adds one page of a listing to the keys found so far.
fn add_page(keys: &mut Vec<String>, prefix: &str, names: &Vec<Option<String>>)
    ensures
        scan::views(final(keys)@) == scan::views(old(keys)@) + listed_keys(prefix@, names@),
{
    let mut i: usize = 0;
    assert(scan::views(keys@) + listed_keys(prefix@, names@.take(0)) =~= scan::views(keys@));
    while i < names.len()
        invariant
            0 <= i <= names.len(),
            scan::views(keys@) == scan::views(old(keys)@) + listed_keys(
                prefix@,
                names@.take(i as int),
            ),
        decreases names.len() - i,
    {
        let ghost before = keys@;
        assert(names@.take(i as int + 1).drop_last() =~= names@.take(i as int));
        assert(names@.take(i as int + 1).last() == names@[i as int]);
        match &names[i] {
            Some(name) => {
                let key = relative_name(prefix, name);
                keys.push(key);
                assert(scan::views(keys@) =~= scan::views(before).push(key@));
            },
            None => {},
        }
        i = i + 1;
        assert(scan::views(keys@) =~= scan::views(old(keys)@) + listed_keys(
            prefix@,
            names@.take(i as int),
        ));
    }
    assert(names@.take(names.len() as int) =~= names@);
}

/// Whether a listing goes on, and with which token. A truncated page without a token cannot be
/// continued.
fn next_page(truncated: Option<bool>, token: Option<String>) -> (r: Option<String>)
    ensures
        r == (if truncated == Some(true) {
            token
        } else {
            None
        }),
{
    match truncated {
        Some(true) => token,
        _ => None,
    }
}

/// A listing that is fetched page by page until it is exhausted.
#[derive(Debug)]
pub struct Listing {
    prefix: String,
    full_prefix: String,
    keys: Vec<String>,
    token: Option<String>,
    exhausted: bool,
}

impl Listing {
    /// The backend's prefix, which keys are relative to.
    pub closed spec fn prefix(self) -> Seq<char> {
        self.prefix@
    }

    /// The prefix to list, as the service sees it.
    pub closed spec fn requested(self) -> Seq<char> {
        self.full_prefix@
    }

    /// The keys found so far.
    pub closed spec fn found(self) -> Seq<Seq<char>> {
        scan::views(self.keys@)
    }

    /// The token to ask for the next page with; none for the first page.
    pub closed spec fn token(self) -> Option<String> {
        self.token
    }

    /// No page is left.
    pub closed spec fn done(self) -> bool {
        self.exhausted
    }

    /// A listing below `key_prefix`, with no page fetched yet.
    pub fn new(prefix: &str, key_prefix: &str) -> (r: Self)
        ensures
            r.prefix() == prefix@,
            r.requested() == prefix@ + key_prefix@,
            r.found() == Seq::<Seq<char>>::empty(),
            r.token() is None,
            !r.done(),
    {
        let r = Listing {
            prefix: prefix.to_owned(),
            full_prefix: helpers::full_key(prefix, key_prefix),
            keys: Vec::new(),
            token: None,
            exhausted: false,
        };
        assert(r.found() =~= Seq::<Seq<char>>::empty());
        r
    }

    /// The prefix to list, as the service sees it.
    pub fn full_prefix(&self) -> (r: &str)
        ensures
            r@ == self.requested(),
    {
        self.full_prefix.as_str()
    }

    /// The token to ask for the next page with.
    pub fn next_token(&self) -> (r: &Option<String>)
        ensures
            *r == self.token(),
    {
        &self.token
    }

    /// Whether every page has been fetched.
    pub fn is_done(&self) -> (r: bool)
        ensures
            r == self.done(),
    {
        self.exhausted
    }

    /// Takes in a page. The listing goes on where the page says that it was truncated and
    /// gives a token to continue with.
    pub fn add(
        &mut self,
        names: &Vec<Option<String>>,
        truncated: Option<bool>,
        next_token: Option<String>,
    )
        ensures
            final(self).prefix() == old(self).prefix(),
            final(self).requested() == old(self).requested(),
            final(self).found() == old(self).found() + listed_keys(old(self).prefix(), names@),
            final(self).done() <==> !(truncated == Some(true) && next_token is Some),
            !final(self).done() ==> final(self).token() == next_token,
    {
        add_page(&mut self.keys, &self.prefix, names);
        let next = next_page(truncated, next_token);
        self.exhausted = next.is_none();
        self.token = next;
    }

    /// The keys found.
    pub fn into_keys(self) -> (r: Vec<String>)
        ensures
            scan::views(r@) == self.found(),
    {
        self.keys
    }
}

/// The results of parallel downloads, which finish in any order.
#[derive(Debug)]
pub struct DownloadSlots {
    slots: Vec<Option<Vec<u8>>>,
}

impl DownloadSlots {
    /// What has been downloaded so far, by position in the request.
    pub closed spec fn arrived(self) -> Seq<Option<Seq<u8>>> {
        self.slots@.map_values(
            |s: Option<Vec<u8>>|
                match s {
                    Some(v) => Some(v@),
                    None => None,
                },
        )
    }

    /// Room for the results of `count` downloads.
    pub fn new(count: usize) -> (r: Self)
        ensures
            r.arrived() == Seq::new(count as nat, |i: int| None::<Seq<u8>>),
    {
        let mut slots: Vec<Option<Vec<u8>>> = Vec::new();
        let mut i: usize = 0;
        while i < count
            invariant
                0 <= i <= count,
                slots@.len() == i,
                forall|j: int| 0 <= j < i ==> #[trigger] slots@[j] is None,
            decreases count - i,
        {
            slots.push(None);
            i = i + 1;
        }
        let r = DownloadSlots { slots };
        assert(r.arrived() =~= Seq::new(count as nat, |i: int| None::<Seq<u8>>));
        r
    }

    /// Whether another download may start while `running` are under way.
    pub fn may_start(running: usize) -> (r: bool)
        ensures
            r == (running < MAX_CONCURRENT_DOWNLOADS),
    {
        running < MAX_CONCURRENT_DOWNLOADS
    }

    /// Stores the result of the download at position `index`.
    pub fn arrive(&mut self, index: usize, data: Vec<u8>)
        requires
            index < old(self).arrived().len(),
        ensures
            final(self).arrived() == old(self).arrived().update(index as int, Some(data@)),
    {
        self.slots.set(index, Some(data));
        assert(self.arrived() =~= old(self).arrived().update(index as int, Some(data@)));
    }

    /// All results in the order of the request, or an error that names the first position
    /// without one.
    pub fn finish(self) -> (r: Result<Vec<Vec<u8>>, ObjectStoreError>)
        ensures
            r is Ok <==> (forall|i: int|
                0 <= i < self.arrived().len() ==> #[trigger] self.arrived()[i] is Some),
            r matches Ok(all) ==> {
                &&& all@.len() == self.arrived().len()
                &&& forall|i: int|
                    0 <= i < all@.len() ==> self.arrived()[i] == Some((#[trigger] all@[i])@)
            },
            r matches Err(e) ==> exists|i: int|
                0 <= i < self.arrived().len() && (#[trigger] self.arrived()[i]) is None && (forall|
                    j: int,
                |
                    0 <= j < i ==> #[trigger] self.arrived()[j] is Some) && (
                e matches ObjectStoreError::Other(m) && m@
                    == "Missing download result for chunk at index "@ + text::decimal(i as nat)),
    {
        let ghost arrived = self.arrived();
        let mut slots = self.slots;
        let mut all: Vec<Vec<u8>> = Vec::new();
        let mut i: usize = 0;
        while i < slots.len()
            invariant
                0 <= i <= slots.len(),
                slots@.len() == arrived.len(),
                forall|j: int|
                    i <= j < slots@.len() ==> (#[trigger] arrived[j]) == (match slots@[j] {
                        Some(v) => Some(v@),
                        None => None::<Seq<u8>>,
                    }),
                all@.len() == i,
                arrived == self.arrived(),
                forall|j: int| 0 <= j < i ==> arrived[j] == Some((#[trigger] all@[j])@),
                forall|j: int| 0 <= j < i ==> #[trigger] arrived[j] is Some,
            decreases slots.len() - i,
        {
            let ghost here = slots@[i as int];
            assert(arrived[i as int] == (match here {
                Some(v) => Some(v@),
                None => None::<Seq<u8>>,
            }));
            match slots[i].take() {
                Some(data) => {
                    all.push(data);
                },
                None => {
                    let m = text::concat2(
                        "Missing download result for chunk at index ",
                        text::decimal_text(i as u64).as_str(),
                    );
                    return Err(ObjectStoreError::Other(m));
                },
            }
            i = i + 1;
        }
        Ok(all)
    }
}

/// A manifest reads back as it was written: the bytes of a text decode to that text.
pub proof fn law_manifest_reads_back(json: Seq<char>)
    ensures
        vstd::utf8::valid_utf8(vstd::utf8::encode_utf8(json)),
        vstd::utf8::decode_utf8(vstd::utf8::encode_utf8(json)) == json,
{
    vstd::utf8::encode_utf8_valid_utf8(json);
    vstd::utf8::encode_utf8_decode_utf8(json);
}

/// A listing in pages names what the unpaged listing names.
pub proof fn law_pages_add_up(prefix: Seq<char>, a: Seq<Option<String>>, b: Seq<Option<String>>)
    ensures
        listed_keys(prefix, a + b) == listed_keys(prefix, a) + listed_keys(prefix, b),
    decreases b.len(),
{
    if b.len() == 0 {
        assert(a + b =~= a);
        assert(listed_keys(prefix, a) + listed_keys(prefix, b) =~= listed_keys(prefix, a));
    } else {
        law_pages_add_up(prefix, a, b.drop_last());
        assert((a + b).drop_last() =~= a + b.drop_last());
        assert((a + b).last() == b.last());
        assert(listed_keys(prefix, a + b) =~= listed_keys(prefix, a) + listed_keys(prefix, b));
    }
}

/// Downloads may finish in either order: the results stand by position.
pub proof fn law_arrival_order_does_not_matter(
    arrived: Seq<Option<Seq<u8>>>,
    i: int,
    j: int,
    a: Seq<u8>,
    b: Seq<u8>,
)
    requires
        0 <= i < arrived.len(),
        0 <= j < arrived.len(),
        i != j,
    ensures
        arrived.update(i, Some(a)).update(j, Some(b)) == arrived.update(j, Some(b)).update(
            i,
            Some(a),
        ),
{
    assert(arrived.update(i, Some(a)).update(j, Some(b)) =~= arrived.update(j, Some(b)).update(
        i,
        Some(a),
    ));
}

} // verus!
