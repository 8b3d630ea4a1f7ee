use std::io::Read;

use ouch::compress::{compress_chain, ZstdBounds};
use ouch::format::CompressionFormat;

fn sample_data() -> Vec<u8> {
    let mut data = Vec::new();
    for i in 0..200u32 {
        data.extend_from_slice(format!("line {i}: some compressible text\n").as_bytes());
    }
    data
}

fn chain(formats: &[CompressionFormat], data: &[u8], level: Option<i16>) -> Vec<u8> {
    compress_chain(&formats.to_vec(), data.to_vec(), level, ZstdBounds::query())
}

#[test]
fn gzip_round_trip() {
    let data = sample_data();
    let compressed = chain(&[CompressionFormat::Gzip], &data, None);
    assert_ne!(compressed, data);
    let mut out = Vec::new();
    flate2::read::MultiGzDecoder::new(&compressed[..])
        .read_to_end(&mut out)
        .unwrap();
    assert_eq!(out, data);
}

#[test]
fn gzip_round_trip_with_level() {
    let data = sample_data();
    let compressed = chain(&[CompressionFormat::Gzip], &data, Some(9));
    let mut out = Vec::new();
    flate2::read::MultiGzDecoder::new(&compressed[..])
        .read_to_end(&mut out)
        .unwrap();
    assert_eq!(out, data);
}

#[test]
fn bzip_round_trip() {
    let data = sample_data();
    let compressed = chain(&[CompressionFormat::Bzip], &data, None);
    assert_ne!(compressed, data);
    let mut out = Vec::new();
    bzip2::read::BzDecoder::new(&compressed[..])
        .read_to_end(&mut out)
        .unwrap();
    assert_eq!(out, data);
}

#[test]
fn lz4_round_trip() {
    let data = sample_data();
    let compressed = chain(&[CompressionFormat::Lz4], &data, None);
    assert_ne!(compressed, data);
    let mut out = Vec::new();
    lz4_flex::frame::FrameDecoder::new(&compressed[..])
        .read_to_end(&mut out)
        .unwrap();
    assert_eq!(out, data);
}

#[test]
fn xz_round_trip() {
    let data = sample_data();
    let compressed = chain(&[CompressionFormat::Lzma], &data, None);
    assert_ne!(compressed, data);
    let mut out = Vec::new();
    xz2::read::XzDecoder::new(&compressed[..])
        .read_to_end(&mut out)
        .unwrap();
    assert_eq!(out, data);
}

#[test]
fn snappy_round_trip() {
    let data = sample_data();
    let compressed = chain(&[CompressionFormat::Snappy], &data, None);
    assert_ne!(compressed, data);
    let mut out = Vec::new();
    snap::read::FrameDecoder::new(&compressed[..])
        .read_to_end(&mut out)
        .unwrap();
    assert_eq!(out, data);
}

#[test]
fn zstd_round_trip() {
    let data = sample_data();
    let compressed = chain(&[CompressionFormat::Zstd], &data, None);
    assert_ne!(compressed, data);
    let out = zstd::stream::decode_all(&compressed[..]).unwrap();
    assert_eq!(out, data);
}

#[test]
fn zstd_round_trip_with_clamped_level() {
    // A request above the codec maximum is clamped, and the operation
    // still succeeds.
    let data = sample_data();
    let compressed = chain(&[CompressionFormat::Zstd], &data, Some(25));
    let out = zstd::stream::decode_all(&compressed[..]).unwrap();
    assert_eq!(out, data);
}

#[test]
fn chained_codecs_round_trip_in_reverse_order() {
    let data = sample_data();
    let compressed = chain(
        &[CompressionFormat::Gzip, CompressionFormat::Zstd],
        &data,
        None,
    );
    let unzstd = zstd::stream::decode_all(&compressed[..]).unwrap();
    let mut out = Vec::new();
    flate2::read::MultiGzDecoder::new(&unzstd[..])
        .read_to_end(&mut out)
        .unwrap();
    assert_eq!(out, data);
}

#[test]
fn empty_chain_is_identity() {
    let data = sample_data();
    let out = chain(&[], &data, None);
    assert_eq!(out, data);
}
