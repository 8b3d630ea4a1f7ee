//! Trusted boundary to the outside compression codecs.
//!
//! Each streaming codec is reached through one wrapper that compresses a
//! whole in-memory buffer. What a codec emits for given input and level is a
//! fixed but page-long function of those arguments, so each wrapper's
//! contract names its result with an uninterpreted spec function; the rest of
//! the library reasons in terms of those names.
//!
//! The wrappers are total: every sink is an in-memory buffer, whose writes
//! cannot fail, and every level handed over is valid for its codec (by a
//! `requires`, established by clamping), so encoding cannot fail. A failure
//! of a codec's own worker threads is fatal, as resource exhaustion is.
use vstd::prelude::*;

use std::io::Write;
use gzp::ZWriter;

verus! {

/// The gzip stream the parallel gzip encoder emits for this input at this
/// level.
pub uninterp spec fn gzip_of(data: Seq<u8>, level: int) -> Seq<u8>;

/// The bzip2 stream the bzip2 encoder emits for this input at this level.
pub uninterp spec fn bzip_of(data: Seq<u8>, level: int) -> Seq<u8>;

/// The lz4 frame the lz4 frame encoder emits for this input.
pub uninterp spec fn lz4_of(data: Seq<u8>) -> Seq<u8>;

/// The xz stream the xz encoder emits for this input at this level.
pub uninterp spec fn xz_of(data: Seq<u8>, level: int) -> Seq<u8>;

/// The snappy stream the parallel snappy encoder emits for this input at
/// this level.
pub uninterp spec fn snappy_of(data: Seq<u8>, level: int) -> Seq<u8>;

/// The zstd stream the zstd encoder emits for this input at this level.
pub uninterp spec fn zstd_of(data: Seq<u8>, level: int) -> Seq<u8>;

/// Whether the zstd encoder accepts this compression level; its level
/// domain is queried at run time, never hardcoded.
pub uninterp spec fn zstd_accepts(level: int) -> bool;

/// Relies on gzp's `ParCompress::<Gzip>` (builder, `write_all`, `finish`):
/// a parallel block-compressing gzip encoder whose output is a function of
/// the input bytes and the compression level alone (its gzip header holds a
/// zero mtime, and blocks are written in submission order). Levels 0..=9
/// are valid deflate levels, and the sink is a `Vec`, so encoding cannot
/// fail.
#[verifier::external_body]
pub(crate) fn gzip_compress(data: &Vec<u8>, level: u32) -> (r: Vec<u8>)
    requires
        level <= 9,
    ensures
        r@ == gzip_of(data@, level as int),
{
    let mut enc = gzp::par::compress::ParCompressBuilder::<gzp::deflate::Gzip>::new()
        .compression_level(gzp::Compression::new(level))
        .from_writer(Vec::new());
    enc.write_all(data.as_slice()).expect("gzip encoding into memory cannot fail");
    enc.finish().expect("gzip encoding into memory cannot fail")
}

/// Relies on bzip2's `write::BzEncoder` (`new`, `write_all`, `finish`): a
/// single-stream bzip2 encoder, deterministic in input and level.
/// `bzip2::Compression::new` accepts only levels 1..=9, and the sink is a
/// `Vec`, so encoding cannot fail.
#[verifier::external_body]
pub(crate) fn bzip_compress(data: &Vec<u8>, level: u32) -> (r: Vec<u8>)
    requires
        1 <= level <= 9,
    ensures
        r@ == bzip_of(data@, level as int),
{
    let mut enc = bzip2::write::BzEncoder::new(Vec::new(), bzip2::Compression::new(level));
    enc.write_all(data.as_slice()).expect("bzip2 encoding into memory cannot fail");
    enc.finish().expect("bzip2 encoding into memory cannot fail")
}

/// Relies on lz4_flex's `frame::FrameEncoder` (`new`, `write_all`,
/// `finish`): an lz4 frame encoder with no exposed level, deterministic in
/// the input bytes. Its errors come only from the sink, a `Vec` here, so
/// encoding cannot fail.
#[verifier::external_body]
pub(crate) fn lz4_compress(data: &Vec<u8>) -> (r: Vec<u8>)
    ensures
        r@ == lz4_of(data@),
{
    let mut enc = lz4_flex::frame::FrameEncoder::new(Vec::new());
    enc.write_all(data.as_slice()).expect("lz4 encoding into memory cannot fail");
    enc.finish().expect("lz4 encoding into memory cannot fail")
}

/// Relies on xz2's `write::XzEncoder` (`new`, `write_all`, `finish`): an xz
/// stream encoder, deterministic in input and level. Its presets are
/// 0..=9 (`XzEncoder::new` aborts on others, excluded by the `requires`),
/// and the sink is a `Vec`, so encoding cannot fail.
#[verifier::external_body]
pub(crate) fn xz_compress(data: &Vec<u8>, level: u32) -> (r: Vec<u8>)
    requires
        level <= 9,
    ensures
        r@ == xz_of(data@, level as int),
{
    let mut enc = xz2::write::XzEncoder::new(Vec::new(), level);
    enc.write_all(data.as_slice()).expect("xz encoding into memory cannot fail");
    enc.finish().expect("xz encoding into memory cannot fail")
}

/// Relies on gzp's `ParCompress::<Snap>` (builder, `write_all`, `finish`):
/// a parallel block encoder for the snappy frame format, deterministic in
/// input and level (the format itself ignores the level). The sink is a
/// `Vec`, so encoding cannot fail.
#[verifier::external_body]
pub(crate) fn snappy_compress(data: &Vec<u8>, level: u32) -> (r: Vec<u8>)
    requires
        level <= 9,
    ensures
        r@ == snappy_of(data@, level as int),
{
    let mut enc = gzp::par::compress::ParCompressBuilder::<gzp::snap::Snap>::new()
        .compression_level(gzp::Compression::new(level))
        .from_writer(Vec::new());
    enc.write_all(data.as_slice()).expect("snappy encoding into memory cannot fail");
    enc.finish().expect("snappy encoding into memory cannot fail")
}

/// Relies on zstd's `stream::write::Encoder` (`new`, `write_all`,
/// `finish`): a streaming zstd encoder, deterministic in input and level.
/// `Encoder::new` fails only on a level outside the codec's range,
/// excluded by the `requires`, and the sink is a `Vec`, so encoding cannot
/// fail.
#[verifier::external_body]
pub(crate) fn zstd_compress(data: &Vec<u8>, level: i32) -> (r: Vec<u8>)
    requires
        zstd_accepts(level as int),
    ensures
        r@ == zstd_of(data@, level as int),
{
    let mut enc = zstd::stream::write::Encoder::new(Vec::new(), level)
        .expect("the level was checked against the codec's range");
    enc.write_all(data.as_slice()).expect("zstd encoding into memory cannot fail");
    enc.finish().expect("zstd encoding into memory cannot fail")
}

/// Relies on zstd's `compression_level_range`: the inclusive, never-empty
/// range of the levels the encoder accepts.
#[verifier::external_body]
fn zstd_level_range() -> (r: (i32, i32))
    ensures
        r.0 <= r.1,
        forall|l: int| r.0 <= l <= r.1 ==> #[trigger] zstd_accepts(l),
{
    let range = zstd::compression_level_range();
    (*range.start(), *range.end())
}

/// Relies on zstd's `DEFAULT_COMPRESSION_LEVEL` (`ZSTD_CLEVEL_DEFAULT`),
/// which is 3 and is itself an accepted level, inside
/// `compression_level_range`.
#[verifier::external_body]
fn zstd_default_compression_level() -> (r: i32)
    ensures
        r == 3,
        zstd_accepts(r as int),
{
    zstd::DEFAULT_COMPRESSION_LEVEL
}

/// The inclusive bounds of the zstd level domain, as the codec reports
/// them at run time.
pub fn zstd_bounds() -> (r: (i32, i32))
    ensures
        r.0 <= r.1,
        forall|l: int| r.0 <= l <= r.1 ==> #[trigger] zstd_accepts(l),
{
    zstd_level_range()
}

/// The zstd default level.
pub fn zstd_default_level() -> (r: i32)
    ensures
        r == 3,
        zstd_accepts(3),
{
    zstd_default_compression_level()
}

} // verus!
