//! Compression-level clamping.
//!
//! A requested level outside a codec's valid domain is never an error: it is
//! clamped to the nearest boundary of that domain. An absent level means the
//! codec's default. Per-codec domains and defaults: gzip [0,9] default 3 (the
//! parallel encoder's own default, not the underlying deflate library's),
//! bzip2 [1,9] default 6, xz/lzma [0,9] default 6, snappy [0,9] default 0,
//! zstd [min,max] as the codec reports at run time, default 3. Lz4 exposes no
//! level.
use vstd::prelude::*;

verus! {

/// `l` clamped into `[min, max]`: the nearest value of the interval.
pub open spec fn clamp_spec(l: int, min: int, max: int) -> int {
    if l < min {
        min
    } else if l > max {
        max
    } else {
        l
    }
}

/// Effective gzip level: the requested level clamped into [0, 9], or the
/// parallel gzip encoder's default of 3 when absent.
pub open spec fn gzip_level_spec(level: Option<i16>) -> int {
    match level {
        Option::Some(l) => clamp_spec(l as int, 0, 9),
        Option::None => 3,
    }
}

/// Effective bzip2 level: the requested level clamped into [1, 9] (bzip2
/// rejects level 0), or the codec default of 6 when absent.
pub open spec fn bzip_level_spec(level: Option<i16>) -> int {
    match level {
        Option::Some(l) => clamp_spec(l as int, 1, 9),
        Option::None => 6,
    }
}

/// Effective xz/lzma level: the requested level clamped into [0, 9], or 6
/// when absent.
pub open spec fn xz_level_spec(level: Option<i16>) -> int {
    match level {
        Option::Some(l) => clamp_spec(l as int, 0, 9),
        Option::None => 6,
    }
}

/// Effective snappy level: the requested level clamped into [0, 9], or 0
/// when absent (the snappy block format itself has no levels).
pub open spec fn snappy_level_spec(level: Option<i16>) -> int {
    match level {
        Option::Some(l) => clamp_spec(l as int, 0, 9),
        Option::None => 0,
    }
}

/// Effective zstd level: the requested level clamped into the run-time
/// bounds `[min, max]` that the codec reports, or the codec default of 3
/// when absent.
pub open spec fn zstd_level_spec(level: Option<i16>, min: int, max: int, default: int) -> int {
    match level {
        Option::Some(l) => clamp_spec(l as int, min, max),
        Option::None => default,
    }
}

/// Clamp a requested level into `[min, max]`.
pub fn clamp_level(l: i16, min: i32, max: i32) -> (r: i32)
    requires
        min <= max,
    ensures
        r == clamp_spec(l as int, min as int, max as int),
{
    let wide: i32 = l as i32;
    if wide < min {
        min
    } else if wide > max {
        max
    } else {
        wide
    }
}

/// Effective gzip level for a request.
pub fn gzip_effective_level(level: Option<i16>) -> (r: u32)
    ensures
        r == gzip_level_spec(level),
{
    match level {
        Option::Some(l) => clamp_level(l, 0, 9) as u32,
        Option::None => 3,
    }
}

/// Effective bzip2 level for a request.
pub fn bzip_effective_level(level: Option<i16>) -> (r: u32)
    ensures
        r == bzip_level_spec(level),
{
    match level {
        Option::Some(l) => clamp_level(l, 1, 9) as u32,
        Option::None => 6,
    }
}

/// Effective xz/lzma level for a request.
pub fn xz_effective_level(level: Option<i16>) -> (r: u32)
    ensures
        r == xz_level_spec(level),
{
    match level {
        Option::Some(l) => clamp_level(l, 0, 9) as u32,
        Option::None => 6,
    }
}

/// Effective snappy level for a request.
pub fn snappy_effective_level(level: Option<i16>) -> (r: u32)
    ensures
        r == snappy_level_spec(level),
{
    match level {
        Option::Some(l) => clamp_level(l, 0, 9) as u32,
        Option::None => 0,
    }
}

/// Effective zstd level for a request, given the bounds and default the
/// codec reports.
pub fn zstd_effective_level(level: Option<i16>, min: i32, max: i32, default: i32) -> (r: i32)
    requires
        min <= max,
    ensures
        r == zstd_level_spec(level, min as int, max as int, default as int),
{
    match level {
        Option::Some(l) => clamp_level(l, min, max),
        Option::None => default,
    }
}

/// Clamping is idempotent: clamping an already clamped level changes
/// nothing.
pub proof fn lemma_clamp_idempotent(l: int, min: int, max: int)
    requires
        min <= max,
    ensures
        clamp_spec(clamp_spec(l, min, max), min, max) == clamp_spec(l, min, max),
{
}

/// A level outside the domain clamps to the same effective level as the
/// nearest boundary value.
pub proof fn lemma_clamp_nearest_boundary(l: int, min: int, max: int)
    requires
        min <= max,
    ensures
        l > max ==> clamp_spec(l, min, max) == clamp_spec(max, min, max),
        l < min ==> clamp_spec(l, min, max) == clamp_spec(min, min, max),
{
}

/// Clamping is monotonic: a higher requested level never yields a lower
/// effective level.
pub proof fn lemma_clamp_monotonic(l1: int, l2: int, min: int, max: int)
    requires
        min <= max,
        l1 <= l2,
    ensures
        clamp_spec(l1, min, max) <= clamp_spec(l2, min, max),
{
}

} // verus!
