use ouch::compress::ZstdBounds;
use ouch::level::{
    bzip_effective_level, clamp_level, gzip_effective_level, snappy_effective_level,
    xz_effective_level, zstd_effective_level,
};

#[test]
fn clamp_inside_domain_is_identity() {
    assert_eq!(clamp_level(5, 0, 9), 5);
    assert_eq!(clamp_level(0, 0, 9), 0);
    assert_eq!(clamp_level(9, 0, 9), 9);
}

#[test]
fn clamp_outside_domain_hits_nearest_boundary() {
    assert_eq!(clamp_level(25, 0, 9), 9);
    assert_eq!(clamp_level(-3, 0, 9), 0);
    assert_eq!(clamp_level(0, 1, 9), 1);
}

#[test]
fn clamp_is_idempotent_on_samples() {
    for l in [-40i16, -1, 0, 4, 9, 10, 77] {
        let once = clamp_level(l, 1, 9);
        let twice = clamp_level(once as i16, 1, 9);
        assert_eq!(once, twice);
    }
}

#[test]
fn clamp_is_monotonic_on_samples() {
    let samples = [-40i16, -1, 0, 1, 4, 9, 10, 77];
    for w in samples.windows(2) {
        assert!(clamp_level(w[0], 0, 9) <= clamp_level(w[1], 0, 9));
    }
}

#[test]
fn gzip_levels() {
    assert_eq!(gzip_effective_level(None), 3);
    assert_eq!(gzip_effective_level(Some(5)), 5);
    assert_eq!(gzip_effective_level(Some(25)), 9);
    assert_eq!(gzip_effective_level(Some(-2)), 0);
}

#[test]
fn bzip_levels() {
    assert_eq!(bzip_effective_level(None), 6);
    assert_eq!(bzip_effective_level(Some(0)), 1);
    assert_eq!(bzip_effective_level(Some(25)), 9);
}

#[test]
fn xz_levels() {
    assert_eq!(xz_effective_level(None), 6);
    assert_eq!(xz_effective_level(Some(11)), 9);
}

#[test]
fn snappy_levels() {
    assert_eq!(snappy_effective_level(None), 0);
    assert_eq!(snappy_effective_level(Some(4)), 4);
}

#[test]
fn zstd_level_above_codec_max_clamps_to_max() {
    let b = ZstdBounds::query();
    assert_eq!(b.max, 22);
    assert_eq!(b.default, 3);
    assert_eq!(zstd_effective_level(Some(25), b.min, b.max, b.default), 22);
    assert_eq!(zstd_effective_level(None, b.min, b.max, b.default), 3);
    assert_eq!(zstd_effective_level(Some(19), b.min, b.max, b.default), 19);
}
