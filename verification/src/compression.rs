//! Lossless compression of drive blocks and uploaded chunks.

use std::io::{Read, Write};

use vstd::prelude::*;

use crate::error::ObjectStoreError;
use crate::text;

verus! {

/// Algorithm code reported in the data-compression mode page: "vendor specific".
pub const COMPRESSION_ALGORITHM_DEFAULT: u32 = 0;

/// The zstd level used when none is chosen.
pub const ZSTD_DEFAULT_LEVEL: i32 = 3;

/// A lossless compression algorithm.
#[derive(Debug, Clone, Copy, PartialEq, Eq, Structural)]
pub enum CompressionAlgo {
    /// LZ4, frame format.
    Lz4,
    /// Zstandard.
    Zstd,
    /// ECMA-321 streaming lossless data compression. Reserved: no codec is available.
    Sldc,
}

/// The lower-case name of an algorithm.
pub open spec fn algo_name(algo: CompressionAlgo) -> Seq<char> {
    match algo {
        CompressionAlgo::Lz4 => "lz4"@,
        CompressionAlgo::Zstd => "zstd"@,
        CompressionAlgo::Sldc => "sldc"@,
    }
}

impl CompressionAlgo {
    /// Lower-case name as it appears in manifests and configuration.
    pub fn as_str(&self) -> (r: &'static str)
        ensures
            r@ == algo_name(*self),
    {
        match self {
            CompressionAlgo::Lz4 => "lz4",
            CompressionAlgo::Zstd => "zstd",
            CompressionAlgo::Sldc => "sldc",
        }
    }
}

/// Drive-side compression state of a loaded cartridge.
///
/// `dce` governs future writes only: what is read back is decompressed by the
/// per-block marker.
#[derive(Debug, Clone, Copy, PartialEq, Eq)]
pub struct DriveCompressionState {
    /// Data-compression-enable bit: compress new writes.
    pub dce: bool,
    /// Algorithm for new writes while `dce` is set.
    pub algorithm: CompressionAlgo,
    /// zstd level; the other algorithms ignore it.
    pub level: i32,
}

impl DriveCompressionState {
    /// Compression on, with the default algorithm.
    pub fn enabled() -> (r: Self)
        ensures
            r == (DriveCompressionState {
                dce: true,
                algorithm: CompressionAlgo::Lz4,
                level: ZSTD_DEFAULT_LEVEL,
            }),
    {
        DriveCompressionState {
            dce: true,
            algorithm: CompressionAlgo::Lz4,
            level: ZSTD_DEFAULT_LEVEL,
        }
    }

    /// Compression on, with a chosen algorithm.
    pub fn enabled_with(algorithm: CompressionAlgo) -> (r: Self)
        ensures
            r == (DriveCompressionState { dce: true, algorithm, level: ZSTD_DEFAULT_LEVEL }),
    {
        DriveCompressionState::enabled_with_level(algorithm, ZSTD_DEFAULT_LEVEL)
    }

    /// Compression on, with a chosen algorithm and zstd level.
    pub fn enabled_with_level(algorithm: CompressionAlgo, level: i32) -> (r: Self)
        ensures
            r == (DriveCompressionState { dce: true, algorithm, level }),
    {
        DriveCompressionState { dce: true, algorithm, level }
    }

    /// Compression off.
    pub fn disabled() -> (r: Self)
        ensures
            r == (DriveCompressionState {
                dce: false,
                algorithm: CompressionAlgo::Lz4,
                level: ZSTD_DEFAULT_LEVEL,
            }),
    {
        DriveCompressionState {
            dce: false,
            algorithm: CompressionAlgo::Lz4,
            level: ZSTD_DEFAULT_LEVEL,
        }
    }

    /// True iff new writes are compressed by the drive.
    pub fn compress_on_write(&self) -> (r: bool)
        ensures
            r == self.dce,
    {
        self.dce
    }
}

impl Default for DriveCompressionState {
    fn default() -> (r: Self)
        ensures
            r == (DriveCompressionState {
                dce: false,
                algorithm: CompressionAlgo::Lz4,
                level: ZSTD_DEFAULT_LEVEL,
            }),
    {
        DriveCompressionState::disabled()
    }
}

/// Compression of uploaded chunks. Without an algorithm, chunks go up as they are.
#[derive(Debug, Clone, Copy, PartialEq, Eq)]
pub struct CompressionConfig {
    pub algorithm: Option<CompressionAlgo>,
    /// zstd level; the other algorithms ignore it.
    pub level: i32,
}

impl CompressionConfig {
    pub fn new(algorithm: Option<CompressionAlgo>, level: i32) -> (r: Self)
        ensures
            r == (CompressionConfig { algorithm, level }),
    {
        CompressionConfig { algorithm, level }
    }

    /// No compression of uploads.
    pub fn disabled() -> (r: Self)
        ensures
            r == (CompressionConfig { algorithm: None, level: ZSTD_DEFAULT_LEVEL }),
    {
        CompressionConfig { algorithm: None, level: ZSTD_DEFAULT_LEVEL }
    }

    /// True iff uploads are compressed.
    pub fn enabled(&self) -> (r: bool)
        ensures
            r == self.algorithm is Some,
    {
        self.algorithm.is_some()
    }
}

impl Default for CompressionConfig {
    fn default() -> (r: Self)
        ensures
            r == (CompressionConfig {
                algorithm: Some(CompressionAlgo::Zstd),
                level: ZSTD_DEFAULT_LEVEL,
            }),
    {
        CompressionConfig { algorithm: Some(CompressionAlgo::Zstd), level: ZSTD_DEFAULT_LEVEL }
    }
}

/// The stage at which the LZ4 frame encoder failed.
#[derive(Debug, Clone, Copy, PartialEq, Eq, Structural)]
pub enum Lz4Stage {
    Write,
    Finish,
}

/// What the LZ4 frame encoder makes of `data`: the frame, or the failed stage with the
/// encoder's message.
pub uninterp spec fn lz4_frame(data: Seq<u8>) -> Result<Seq<u8>, (Lz4Stage, Seq<char>)>;

/// What the LZ4 frame decoder makes of `data`: the content, or the decoder's message.
pub uninterp spec fn lz4_unframe(data: Seq<u8>) -> Result<Seq<u8>, Seq<char>>;

/// What zstd makes of `data` at `level`: the frame, or the encoder's message.
pub uninterp spec fn zstd_frame(data: Seq<u8>, level: int) -> Result<Seq<u8>, Seq<char>>;

/// What zstd decodes `data` to: the content, or the decoder's message.
pub uninterp spec fn zstd_unframe(data: Seq<u8>) -> Result<Seq<u8>, Seq<char>>;

/// The view of a codec result.
pub open spec fn codec_view(r: Result<Vec<u8>, String>) -> Result<Seq<u8>, Seq<char>> {
    match r {
        Ok(v) => Ok(v@),
        Err(e) => Err(e@),
    }
}

/// The view of an LZ4 encoder result.
pub open spec fn lz4_view(r: Result<Vec<u8>, (Lz4Stage, String)>) -> Result<
    Seq<u8>,
    (Lz4Stage, Seq<char>),
> {
    match r {
        Ok(v) => Ok(v@),
        Err((stage, e)) => Err((stage, e@)),
    }
}

/// `lz4_flex::frame::FrameEncoder` over a fresh vector: `write_all` of the whole input,
/// then `finish`. The result is named by `lz4_frame`; a frame that comes back decodes to
/// the input.
#[verifier::external_body]
fn lz4_encode(data: &[u8]) -> (r: Result<Vec<u8>, (Lz4Stage, String)>)
    ensures
        lz4_view(r) == lz4_frame(data@),
        r matches Ok(v) ==> (lz4_unframe(v@) matches Ok(d) && d == data@),
{
    let mut encoder = lz4_flex::frame::FrameEncoder::new(Vec::new());
    if let Err(e) = encoder.write_all(data) {
        return Err((Lz4Stage::Write, e.to_string()));
    }
    encoder.finish().map_err(|e| (Lz4Stage::Finish, e.to_string()))
}

/// `lz4_flex::frame::FrameDecoder` over the input, read to its end. The result is named by
/// `lz4_unframe`.
#[verifier::external_body]
fn lz4_decode(data: &[u8]) -> (r: Result<Vec<u8>, String>)
    ensures
        codec_view(r) == lz4_unframe(data@),
{
    let mut out = Vec::new();
    match lz4_flex::frame::FrameDecoder::new(data).read_to_end(&mut out) {
        Ok(_) => Ok(out),
        Err(e) => Err(e.to_string()),
    }
}

/// `zstd::encode_all`. The result is named by `zstd_frame`; a frame that comes back decodes
/// to the input, whatever the level.
#[verifier::external_body]
fn zstd_encode(data: &[u8], level: i32) -> (r: Result<Vec<u8>, String>)
    ensures
        codec_view(r) == zstd_frame(data@, level as int),
        r matches Ok(v) ==> (zstd_unframe(v@) matches Ok(d) && d == data@),
{
    zstd::encode_all(data, level).map_err(|e| e.to_string())
}

/// `zstd::decode_all`. The result is named by `zstd_unframe`.
#[verifier::external_body]
fn zstd_decode(data: &[u8]) -> (r: Result<Vec<u8>, String>)
    ensures
        codec_view(r) == zstd_unframe(data@),
{
    zstd::decode_all(data).map_err(|e| e.to_string())
}

pub const SLDC_COMPRESS_MESSAGE: &'static str =
    "sldc compression not yet implemented (ECMA-321 codec stub — \
     reserved in the schema, no encoder shipped). Pick lz4 or \
     zstd instead, or wait for the SLDC codec to land.";

pub const SLDC_DECOMPRESS_MESSAGE: &'static str =
    "sldc decompression not yet implemented (ECMA-321 codec stub). \
     Any chunks tagged sldc in the manifest cannot be read with \
     this build.";

/// What compressing `data` gives: the compressed bytes, or the message of a
/// `Compression` error.
pub open spec fn compressed(algo: CompressionAlgo, data: Seq<u8>, level: int) -> Result<
    Seq<u8>,
    Seq<char>,
> {
    match algo {
        CompressionAlgo::Lz4 => match lz4_frame(data) {
            Ok(v) => Ok(v),
            Err((Lz4Stage::Write, m)) => Err("lz4 write: "@ + m),
            Err((Lz4Stage::Finish, m)) => Err("lz4 finish: "@ + m),
        },
        CompressionAlgo::Zstd => match zstd_frame(data, level) {
            Ok(v) => Ok(v),
            Err(m) => Err("zstd encode: "@ + m),
        },
        CompressionAlgo::Sldc => Err(SLDC_COMPRESS_MESSAGE@),
    }
}

/// What decompressing `data` gives: the content, or the message of a `Compression` error.
pub open spec fn decompressed(algo: CompressionAlgo, data: Seq<u8>) -> Result<
    Seq<u8>,
    Seq<char>,
> {
    match algo {
        CompressionAlgo::Lz4 => match lz4_unframe(data) {
            Ok(v) => Ok(v),
            Err(m) => Err("lz4 decode: "@ + m),
        },
        CompressionAlgo::Zstd => match zstd_unframe(data) {
            Ok(v) => Ok(v),
            Err(m) => Err("zstd decode: "@ + m),
        },
        CompressionAlgo::Sldc => Err(SLDC_DECOMPRESS_MESSAGE@),
    }
}

/// Relates a codec call's result to its specification: success carries the bytes, failure
/// is a `Compression` error with the given message.
pub open spec fn codec_result(
    r: Result<Vec<u8>, ObjectStoreError>,
    expected: Result<Seq<u8>, Seq<char>>,
) -> bool {
    match expected {
        Ok(bytes) => r matches Ok(v) && v@ == bytes,
        Err(msg) => r matches Err(ObjectStoreError::Compression(m)) && m@ == msg,
    }
}

/// What `compress_data` makes of the LZ4 encoder's result.
pub fn lz4_outcome(r: Result<Vec<u8>, (Lz4Stage, String)>) -> (out: Result<
    Vec<u8>,
    ObjectStoreError,
>)
    ensures
        r matches Ok(v) ==> (out matches Ok(w) && w == v),
        r matches Err((Lz4Stage::Write, m)) ==> (out matches Err(ObjectStoreError::Compression(t))
            && t@ == "lz4 write: "@ + m@),
        r matches Err((Lz4Stage::Finish, m)) ==> (out matches Err(ObjectStoreError::Compression(t))
            && t@ == "lz4 finish: "@ + m@),
{
    match r {
        Ok(v) => Ok(v),
        Err((Lz4Stage::Write, m)) => Err(
            ObjectStoreError::Compression(text::concat2("lz4 write: ", m.as_str())),
        ),
        Err((Lz4Stage::Finish, m)) => Err(
            ObjectStoreError::Compression(text::concat2("lz4 finish: ", m.as_str())),
        ),
    }
}

/// A codec's result as a library result: a failure becomes a `Compression` error whose
/// message is `stage` followed by the codec's own text.
pub fn codec_outcome(stage: &str, r: Result<Vec<u8>, String>) -> (out: Result<
    Vec<u8>,
    ObjectStoreError,
>)
    ensures
        r matches Ok(v) ==> (out matches Ok(w) && w == v),
        r matches Err(m) ==> (out matches Err(ObjectStoreError::Compression(t)) && t@ == stage@
            + m@),
{
    match r {
        Ok(v) => Ok(v),
        Err(m) => Err(ObjectStoreError::Compression(text::concat2(stage, m.as_str()))),
    }
}

/// Compresses `data` with `algo`; `level` applies to zstd only. A successful result
/// decompresses to `data` again.
pub fn compress_data(algo: CompressionAlgo, data: &[u8], level: i32) -> (r: Result<
    Vec<u8>,
    ObjectStoreError,
>)
    ensures
        codec_result(r, compressed(algo, data@, level as int)),
        r matches Ok(v) ==> (decompressed(algo, v@) matches Ok(d) && d == data@),
{
    match algo {
        CompressionAlgo::Lz4 => lz4_outcome(lz4_encode(data)),
        CompressionAlgo::Zstd => codec_outcome("zstd encode: ", zstd_encode(data, level)),
        CompressionAlgo::Sldc => Err(
            ObjectStoreError::Compression(SLDC_COMPRESS_MESSAGE.to_owned()),
        ),
    }
}

/// Decompresses bytes that `algo` produced.
pub fn decompress_data(algo: CompressionAlgo, data: &[u8]) -> (r: Result<
    Vec<u8>,
    ObjectStoreError,
>)
    ensures
        codec_result(r, decompressed(algo, data@)),
{
    match algo {
        CompressionAlgo::Lz4 => codec_outcome("lz4 decode: ", lz4_decode(data)),
        CompressionAlgo::Zstd => codec_outcome("zstd decode: ", zstd_decode(data)),
        CompressionAlgo::Sldc => Err(
            ObjectStoreError::Compression(SLDC_DECOMPRESS_MESSAGE.to_owned()),
        ),
    }
}

} // verus!
