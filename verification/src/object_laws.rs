//! Laws of stored objects: chunks read back, listings name what is there, downloads stand in
//! the order of the request.

use vstd::prelude::*;

use crate::azure::AzureBackend;
use crate::caching::{self, UploadOutcome};
use crate::compression::{self, CompressionAlgo, CompressionConfig};
use crate::error::ObjectStoreError;
use crate::gcs::GcsBackend;
use crate::objects::{self, DownloadSlots, Listing, StoredChunk};
use crate::s3::S3Backend;
use crate::scan;

verus! {

/// A chunk reads back as it was stored, by the marker that was stored with it.
pub proof fn law_chunks_read_back(
    config: CompressionConfig,
    data: &[u8],
    stored: Result<StoredChunk, ObjectStoreError>,
    read: Result<Vec<u8>, ObjectStoreError>,
)
    requires
        call_ensures(objects::encode_chunk, (config, data), stored),
        stored is Ok,
        call_ensures(
            objects::decode_chunk,
            (Some(stored->Ok_0.marker), stored->Ok_0.bytes),
            read,
        ),
    ensures
        read matches Ok(v) && v@ == data@,
{
}

/// The same through each of the remote backends, where the object lies below the backend's
/// prefix.
pub proof fn law_uploads_read_back(
    s3: S3Backend,
    gcs: GcsBackend,
    azure: AzureBackend,
    key: &str,
    data: &[u8],
    up_s3: Result<(String, StoredChunk), ObjectStoreError>,
    up_gcs: Result<(String, StoredChunk), ObjectStoreError>,
    up_azure: Result<(String, StoredChunk), ObjectStoreError>,
    down_s3: Result<Vec<u8>, ObjectStoreError>,
    down_gcs: Result<Vec<u8>, ObjectStoreError>,
    down_azure: Result<Vec<u8>, ObjectStoreError>,
    key_s3: String,
    key_gcs: String,
    key_azure: String,
)
    requires
        call_ensures(S3Backend::upload_chunk, (&s3, key, data), up_s3),
        call_ensures(GcsBackend::upload_chunk, (&gcs, key, data), up_gcs),
        call_ensures(AzureBackend::upload_chunk, (&azure, key, data), up_azure),
        call_ensures(S3Backend::full_key, (&s3, key), key_s3),
        call_ensures(GcsBackend::full_key, (&gcs, key), key_gcs),
        call_ensures(AzureBackend::full_key, (&azure, key), key_azure),
        up_s3 is Ok,
        up_gcs is Ok,
        up_azure is Ok,
        call_ensures(
            S3Backend::download_chunk,
            (&s3, Some(up_s3->Ok_0.1.marker), up_s3->Ok_0.1.bytes),
            down_s3,
        ),
        call_ensures(
            GcsBackend::download_chunk,
            (&gcs, Some(up_gcs->Ok_0.1.marker), up_gcs->Ok_0.1.bytes),
            down_gcs,
        ),
        call_ensures(
            AzureBackend::download_chunk,
            (&azure, Some(up_azure->Ok_0.1.marker), up_azure->Ok_0.1.bytes),
            down_azure,
        ),
    ensures
        down_s3 matches Ok(v) && v@ == data@,
        down_gcs matches Ok(v) && v@ == data@,
        down_azure matches Ok(v) && v@ == data@,
        up_s3->Ok_0.0@ == key_s3@,
        up_gcs->Ok_0.0@ == key_gcs@,
        up_azure->Ok_0.0@ == key_azure@,
{
}

/// Without an algorithm a chunk is stored as it is. An algorithm that has no codec stores
/// nothing. What is reported of a stored chunk is its size before and after, and the bytes on
/// the wire are the bytes stored.
pub proof fn law_stored_forms(
    config: CompressionConfig,
    data: &[u8],
    r: Result<StoredChunk, ObjectStoreError>,
    moved: u64,
    marker: &'static str,
)
    requires
        call_ensures(objects::encode_chunk, (config, data), r),
        r is Ok ==> call_ensures(caching::transferred_bytes, (&r->Ok_0.outcome,), moved),
        call_ensures(objects::marker, (config.algorithm,), marker),
        data@.len() <= u64::MAX,
    ensures
        config.algorithm is None ==> (r matches Ok(stored) && stored.bytes@ == data@
            && stored.marker@ == "none"@),
        config.algorithm == Some(CompressionAlgo::Sldc) ==> (r matches Err(e) && e is Compression),
        r matches Ok(stored) ==> stored.outcome.uncompressed == data@.len() && stored.outcome.algo
            == config.algorithm && (stored.outcome.compressed is Some
            <==> config.algorithm is Some) && moved == stored.bytes@.len() && stored.marker@
            == marker@,
        r matches Err(e) ==> e is Compression,
{
}

/// The marker alone tells how bytes are read: none and the word `none` leave them as they are,
/// the name of a codec hands them to that codec, and any other word is refused and named.
pub proof fn law_markers_decide(
    word: &str,
    bytes: Vec<u8>,
    slice: &[u8],
    plain: Result<Vec<u8>, ObjectStoreError>,
    marked: Result<Vec<u8>, ObjectStoreError>,
    zstd: Result<Vec<u8>, ObjectStoreError>,
    lz4: Result<Vec<u8>, ObjectStoreError>,
)
    requires
        slice@ == bytes@,
        call_ensures(objects::decode_chunk, (None, bytes), plain),
        call_ensures(objects::decode_chunk, (Some(word), bytes), marked),
        call_ensures(
            compression::decompress_data,
            (CompressionAlgo::Zstd, slice),
            zstd,
        ),
        call_ensures(
            compression::decompress_data,
            (CompressionAlgo::Lz4, slice),
            lz4,
        ),
    ensures
        plain matches Ok(v) && v@ == bytes@,
        word@ == "none"@ ==> (marked matches Ok(v) && v@ == bytes@),
        word@ == "zstd"@ ==> (marked is Ok <==> zstd is Ok) && (marked matches Ok(v) ==> v@
            == zstd->Ok_0@),
        word@ == "lz4"@ ==> (marked is Ok <==> lz4 is Ok) && (marked matches Ok(v) ==> v@
            == lz4->Ok_0@),
        word@ != "none"@ && word@ != "zstd"@ && word@ != "lz4"@ ==> (marked matches Err(e)
            && e is Other),
{
    reveal_strlit("none");
    reveal_strlit("zstd");
    reveal_strlit("lz4");
    assert("none"@[0] == 'n' && "zstd"@[0] == 'z' && "lz4"@.len() == 3);
}

/// What a codec compressed it decompresses again; the reserved codec does neither.
pub proof fn law_codecs_invert(
    algo: CompressionAlgo,
    data: &[u8],
    level: i32,
    packed: Result<Vec<u8>, ObjectStoreError>,
    other: &[u8],
    unpacked: Result<Vec<u8>, ObjectStoreError>,
)
    requires
        call_ensures(compression::compress_data, (algo, data, level), packed),
        packed is Ok ==> other@ == packed->Ok_0@,
        call_ensures(compression::decompress_data, (algo, other), unpacked),
    ensures
        packed is Ok ==> (unpacked matches Ok(v) && v@ == data@),
        algo == CompressionAlgo::Sldc ==> packed is Err && unpacked is Err,
        packed matches Err(e) ==> e is Compression,
        unpacked matches Err(e) ==> e is Compression,
{
}

/// The name of an algorithm is its marker, no compression is `none`, and no two share one.
pub proof fn law_markers_differ(
    a: Option<CompressionAlgo>,
    b: Option<CompressionAlgo>,
    marker_a: &'static str,
    marker_b: &'static str,
)
    requires
        call_ensures(objects::marker, (a,), marker_a),
        call_ensures(objects::marker, (b,), marker_b),
    ensures
        marker_a@ == marker_b@ <==> a == b,
        a is None <==> marker_a@ == "none"@,
        a == Some(CompressionAlgo::Lz4) <==> marker_a@ == "lz4"@,
        a == Some(CompressionAlgo::Zstd) <==> marker_a@ == "zstd"@,
{
    reveal_strlit("none");
    reveal_strlit("zstd");
    reveal_strlit("lz4");
    reveal_strlit("sldc");
    assert("none"@[0] == 'n' && "zstd"@[0] == 'z' && "sldc"@[0] == 's' && "lz4"@.len() == 3);
}

/// A manifest is read exactly if its bytes are text, and reads back as it was written.
pub proof fn law_manifests_read_back(
    json: Seq<char>,
    written: Vec<u8>,
    read: Result<String, ObjectStoreError>,
    bytes: Vec<u8>,
    r: Result<String, ObjectStoreError>,
)
    requires
        written@ == vstd::utf8::encode_utf8(json),
        call_ensures(objects::decode_manifest, (written,), read),
        call_ensures(objects::decode_manifest, (bytes,), r),
    ensures
        read matches Ok(s) && s@ == json,
        r is Ok <==> vstd::utf8::valid_utf8(bytes@),
        r matches Err(e) ==> e is Other,
{
    objects::law_manifest_reads_back(json);
}

/// A key that is listed under a prefix is the rest of the name behind the prefix; a name outside
/// the prefix stands as it is.
pub proof fn law_names_are_cut_behind_the_prefix(
    prefix: &str,
    name: &str,
    key: Seq<char>,
    r: String,
)
    requires
        call_ensures(objects::relative_name, (prefix, name), r),
    ensures
        name@ == prefix@ + key ==> r@ == key,
        !(prefix@.is_prefix_of(name@)) ==> r@ == name@,
{
    if name@ == prefix@ + key {
        crate::helpers::law_relative_key_inverts_full_key(prefix@, key);
    }
}

/// A fresh listing has found nothing and asks for its first page without a token. A page with
/// one name adds the key behind the prefix, and one without a name adds nothing. The listing
/// goes on exactly while the service says that there is more and gives a token, and asks for
/// the next page with that token.
pub proof fn law_a_page_is_taken_in(
    prefix: &str,
    below: &str,
    fresh: Listing,
    asked: &str,
    first_token: &Option<String>,
    fresh_done: bool,
    l: &mut Listing,
    page: Vec<Option<String>>,
    name: Option<String>,
    truncated: Option<bool>,
    token: Option<String>,
    done: bool,
    next: &Option<String>,
    before: Vec<String>,
    after: Vec<String>,
    key: Seq<char>,
)
    requires
        call_ensures(Listing::new, (prefix, below), fresh),
        call_ensures(Listing::full_prefix, (&fresh,), asked),
        call_ensures(Listing::next_token, (&fresh,), first_token),
        call_ensures(Listing::is_done, (&fresh,), fresh_done),
        *old(l) == fresh,
        page@ == seq![name],
        call_ensures(Listing::add, (l, &page, truncated, token), ()),
        call_ensures(Listing::is_done, (&*final(l),), done),
        call_ensures(Listing::next_token, (&*final(l),), next),
        call_ensures(Listing::into_keys, (*old(l),), before),
        call_ensures(Listing::into_keys, (*final(l),), after),
    ensures
        asked@ == prefix@ + below@,
        *first_token is None,
        !fresh_done,
        before@.len() == 0,
        name is None ==> after@.len() == 0,
        name matches Some(n) ==> after@.len() == 1 && (n@ == prefix@ + key ==> after@[0]@ == key),
        done <==> !(truncated == Some(true) && token is Some),
        !done ==> *next == token,
{
    assert(scan::views(before@).len() == before@.len());
    assert(page@.drop_last() =~= Seq::<Option<String>>::empty());
    assert(page@.last() == name);
    assert(objects::listed_keys(prefix@, page@.drop_last()) =~= Seq::empty());
    let v = scan::views(after@);
    assert(v.len() == after@.len());
    if let Some(n) = name {
        assert(v[0] == after@[0]@);
        assert(v[0] == crate::helpers::relative_key(prefix@, n@));
        if n@ == prefix@ + key {
            crate::helpers::law_relative_key_inverts_full_key(prefix@, key);
        }
    }
}

/// Two pages give the keys that the one page with all their names gives, in the same order.
pub proof fn law_pages_are_taken_in_one_after_the_other(
    fresh: Listing,
    a: &mut Listing,
    b: &mut Listing,
    c: &mut Listing,
    first: Vec<Option<String>>,
    second: Vec<Option<String>>,
    whole: Vec<Option<String>>,
    more: Option<bool>,
    token: Option<String>,
    paged: Vec<String>,
    unpaged: Vec<String>,
)
    requires
        whole@ == first@ + second@,
        *old(a) == fresh,
        call_ensures(Listing::add, (a, &first, more, token), ()),
        *old(b) == *final(a),
        call_ensures(Listing::add, (b, &second, more, token), ()),
        *old(c) == fresh,
        call_ensures(Listing::add, (c, &whole, more, token), ()),
        call_ensures(Listing::into_keys, (*final(b),), paged),
        call_ensures(Listing::into_keys, (*final(c),), unpaged),
    ensures
        paged@.len() == unpaged@.len(),
        forall|i: int| 0 <= i < paged@.len() ==> (#[trigger] paged@[i])@ == unpaged@[i]@,
{
    objects::law_pages_add_up(fresh.prefix(), first@, second@);
    let v = scan::views(paged@);
    let w = scan::views(unpaged@);
    assert(v =~= w);
    assert(v.len() == paged@.len() && w.len() == unpaged@.len());
    assert forall|i: int| 0 <= i < paged@.len() implies (#[trigger] paged@[i])@ == unpaged@[i]@ by {
        assert(v[i] == paged@[i]@ && w[i] == unpaged@[i]@);
    }
}

/// Downloads stand in the order of the request, whichever finishes first: once every one has
/// arrived all are handed out, each at its own place, and while one is missing none is.
pub proof fn law_downloads_stand_in_order(
    fresh: DownloadSlots,
    count: usize,
    s: &mut DownloadSlots,
    t: &mut DownloadSlots,
    i: usize,
    j: usize,
    first: Vec<u8>,
    second: Vec<u8>,
    r: Result<Vec<Vec<u8>>, ObjectStoreError>,
    early: Result<Vec<Vec<u8>>, ObjectStoreError>,
)
    requires
        call_ensures(DownloadSlots::new, (count,), fresh),
        *old(s) == fresh,
        i < count,
        j < count,
        i != j,
        call_ensures(DownloadSlots::arrive, (s, i, first), ()),
        call_ensures(DownloadSlots::finish, (*final(s),), early),
        *old(t) == *final(s),
        call_ensures(DownloadSlots::arrive, (t, j, second), ()),
        call_ensures(DownloadSlots::finish, (*final(t),), r),
    ensures
        early is Err,
        count == 2 ==> r is Ok,
        count > 2 ==> r is Err,
        r matches Ok(all) ==> all@.len() == count && all@[i as int]@ == first@ && all@[j as int]@
            == second@,
{
    let s0 = fresh.arrived();
    let s1 = final(s).arrived();
    let s2 = final(t).arrived();
    assert(s1[j as int] is None);
    if count > 2 {
        let k: int = if i != 0 && j != 0 {
            0
        } else if i != 1 && j != 1 {
            1
        } else {
            2
        };
        assert(s2[k] is None);
    }
    if r is Ok {
        assert(s2[i as int] == Some(r->Ok_0@[i as int]@));
        assert(s2[j as int] == Some(r->Ok_0@[j as int]@));
    }
}

/// No more than eight downloads run at the same time.
pub proof fn law_concurrent_downloads(running: usize, may: bool)
    requires
        call_ensures(DownloadSlots::may_start, (running,), may),
    ensures
        may <==> running < 8,
{
}

/// What was moved is what was compressed, or everything where nothing was.
pub proof fn law_bytes_on_the_wire(outcome: UploadOutcome, r: u64)
    requires
        call_ensures(caching::transferred_bytes, (&outcome,), r),
    ensures
        outcome.compressed matches Some(n) ==> r == n,
        outcome.compressed is None ==> r == outcome.uncompressed,
{
}

} // verus!
