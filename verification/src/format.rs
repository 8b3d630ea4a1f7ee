//! Format tokens and the archive-token-is-innermost-only invariant.
use vstd::prelude::*;

verus! {

/// One archive or compression scheme of a chained extension.
#[derive(Clone, Copy, Debug, PartialEq, Eq, Structural)]
pub enum CompressionFormat {
    Tar,
    Zip,
    Rar,
    SevenZip,
    Gzip,
    Bzip,
    Lz4,
    Lzma,
    Snappy,
    Zstd,
}

/// Archive formats enumerate a file tree; they cannot wrap another writer.
pub open spec fn is_archive(f: CompressionFormat) -> bool {
    match f {
        CompressionFormat::Tar
        | CompressionFormat::Zip
        | CompressionFormat::Rar
        | CompressionFormat::SevenZip => true,
        _ => false,
    }
}

/// Streaming codecs transform a byte stream and may wrap any writer.
pub open spec fn is_streaming(f: CompressionFormat) -> bool {
    !is_archive(f)
}

/// A format sequence is valid when it is non-empty and an archive token
/// appears only as its first (innermost) element.
pub open spec fn valid_format_sequence(s: Seq<CompressionFormat>) -> bool {
    &&& s.len() > 0
    &&& forall|i: int| 1 <= i < s.len() ==> is_streaming(#[trigger] s[i])
}

/// Whether `f` is an archive format (tar, zip, rar, 7z).
pub fn is_archive_format(f: CompressionFormat) -> (r: bool)
    ensures
        r == is_archive(f),
{
    match f {
        CompressionFormat::Tar
        | CompressionFormat::Zip
        | CompressionFormat::Rar
        | CompressionFormat::SevenZip => true,
        _ => false,
    }
}

/// Check that the sequence `[first] ++ rest` is valid: an archive token
/// appears at most as its innermost element.
pub fn sequence_is_valid(first: CompressionFormat, rest: &Vec<CompressionFormat>) -> (r: bool)
    ensures
        r == valid_format_sequence(seq![first] + rest@),
{
    let ghost s: Seq<CompressionFormat> = seq![first] + rest@;
    let mut i: usize = 0;
    while i < rest.len()
        invariant
            i <= rest@.len(),
            s == seq![first] + rest@,
            forall|j: int| 0 <= j < i ==> is_streaming(#[trigger] rest@[j]),
        decreases rest@.len() - i,
    {
        if is_archive_format(rest[i]) {
            proof {
                assert(s[i as int + 1] == rest@[i as int]);
                assert(!is_streaming(s[i as int + 1]));
            }
            return false;
        }
        i = i + 1;
    }
    proof {
        assert forall|k: int| 1 <= k < s.len() implies is_streaming(#[trigger] s[k]) by {
            assert(s[k] == rest@[k - 1]);
        }
    }
    true
}

} // verus!
