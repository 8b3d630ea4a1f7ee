//! Pipeline building and dispatch driving.
//!
//! The byte transformation of a chained format sequence is applied
//! innermost-first: [`compress_chain`] folds each streaming codec over an
//! in-memory buffer, so the bytes that reach the destination equal the last
//! format's encoding of the previous ones' output.
//!
//! The terminal behaviour of the innermost format is driven as a
//! state-and-event loop: [`start`] names the first action for a request, the
//! caller performs it (reads the source file, has a collaborator serialize
//! the archive, asks the confirmation question) and hands the outcome back to
//! [`step`], until an action commits the output or aborts.
use vstd::prelude::*;
use vstd::pervasive::unreached;

use crate::codec::{
    gzip_compress, bzip_compress, lz4_compress, xz_compress, snappy_compress, zstd_compress,
    gzip_of, bzip_of, lz4_of, xz_of, snappy_of, zstd_of, zstd_accepts, zstd_bounds,
    zstd_default_level,
};
use crate::format::{CompressionFormat, is_streaming, valid_format_sequence};
use crate::level::{
    gzip_level_spec, bzip_level_spec, xz_level_spec, snappy_level_spec, zstd_level_spec,
    gzip_effective_level, bzip_effective_level, xz_effective_level, snappy_effective_level,
    zstd_effective_level,
};

verus! {

/// The zstd level domain and default, as reported by the codec at run time.
#[derive(Clone, Copy, Debug, PartialEq, Eq, Structural)]
pub struct ZstdBounds {
    pub min: i32,
    pub max: i32,
    pub default: i32,
}

impl ZstdBounds {
    /// The domain is a non-empty interval of levels the encoder accepts,
    /// and the default is accepted too.
    pub open spec fn wf(self) -> bool {
        &&& self.min <= self.max
        &&& forall|l: int| self.min <= l <= self.max ==> #[trigger] zstd_accepts(l)
        &&& zstd_accepts(self.default as int)
    }

    /// Ask the codec for its level domain and default.
    pub fn query() -> (r: ZstdBounds)
        ensures
            r.wf(),
            r.default == 3,
    {
        let (mn, mx) = zstd_bounds();
        ZstdBounds { min: mn, max: mx, default: zstd_default_level() }
    }
}

/// One compression operation: an already-validated format sequence split
/// into its innermost format and the remaining (wrapping) formats, the
/// requested level, and the zstd level domain.
pub struct CompressRequest {
    pub first_format: CompressionFormat,
    pub remaining_formats: Vec<CompressionFormat>,
    pub level: Option<i16>,
    pub zstd: ZstdBounds,
}

impl CompressRequest {
    /// The archive-token-is-innermost-only invariant: every wrapping format
    /// is a streaming codec; the zstd domain is well-formed.
    pub open spec fn wf(self) -> bool {
        &&& forall|i: int|
            0 <= i < self.remaining_formats@.len() ==> is_streaming(
                #[trigger] self.remaining_formats@[i],
            )
        &&& self.zstd.wf()
    }

    /// The whole format sequence, innermost first.
    pub open spec fn full_formats(self) -> Seq<CompressionFormat> {
        seq![self.first_format] + self.remaining_formats@
    }
}

/// Why an operation ended without committing its output.
#[derive(Clone, Copy, Debug, PartialEq, Eq, Structural)]
pub enum AbortReason {
    /// The user declined the zip in-memory buffering confirmation.
    UserDeclined,
    /// Rar is not supported as a compression target.
    RarUnsupported,
}

/// What the caller must do next to advance a compression operation.
#[derive(Debug, PartialEq, Eq)]
pub enum Action {
    /// Read the first input file whole and reply with `Event::FileRead`.
    ReadFirstFile,
    /// Have the collaborator serialize the tar archive of the input paths
    /// and reply with `Event::ArchiveBuilt`.
    BuildTarArchive,
    /// Have the collaborator serialize the zip archive of the input paths
    /// into memory and reply with `Event::ArchiveBuilt`.
    BuildZipArchive,
    /// Warn that the whole zip archive will be buffered in memory, ask
    /// whether to continue, and reply with `Event::Confirmed`.
    AskZipConfirmation,
    /// Stage the input paths into a fresh temporary directory and run the
    /// external 7z archiver against it; the archiver writes the output
    /// path itself, and the operation is then committed.
    StageAndRunSevenZip,
    /// Write these bytes to the output; the operation is then committed.
    WriteOutput(Vec<u8>),
    /// Stop without committing: the output is not a successful artifact.
    AbortNotCommitted(AbortReason),
}

/// The outcome of an action the caller performed.
#[derive(Debug, PartialEq, Eq)]
pub enum Event {
    /// The contents of the first input file.
    FileRead(Vec<u8>),
    /// The serialized archive the collaborator produced.
    ArchiveBuilt(Vec<u8>),
    /// The user's answer to the zip in-memory buffering question.
    Confirmed(bool),
}

/// The bytes one streaming codec emits for `data` at the effective level of
/// `level`. Archive formats never encode a stream; their arms are inert.
pub open spec fn encode_one_spec(
    f: CompressionFormat,
    data: Seq<u8>,
    level: Option<i16>,
    zstd: ZstdBounds,
) -> Seq<u8> {
    match f {
        CompressionFormat::Gzip => gzip_of(data, gzip_level_spec(level)),
        CompressionFormat::Bzip => bzip_of(data, bzip_level_spec(level)),
        CompressionFormat::Lz4 => lz4_of(data),
        CompressionFormat::Lzma => xz_of(data, xz_level_spec(level)),
        CompressionFormat::Snappy => snappy_of(data, snappy_level_spec(level)),
        CompressionFormat::Zstd => zstd_of(
            data,
            zstd_level_spec(level, zstd.min as int, zstd.max as int, zstd.default as int),
        ),
        _ => data,
    }
}

/// The bytes a whole format chain emits: each format's encoding applied in
/// sequence order, first element first.
pub open spec fn chain_spec(
    formats: Seq<CompressionFormat>,
    data: Seq<u8>,
    level: Option<i16>,
    zstd: ZstdBounds,
) -> Seq<u8>
    decreases formats.len(),
{
    if formats.len() == 0 {
        data
    } else {
        chain_spec(formats.drop_first(), encode_one_spec(formats[0], data, level, zstd), level, zstd)
    }
}

/// Encode `data` with one streaming codec at the effective level of the
/// request.
pub fn encode_with(
    f: CompressionFormat,
    data: Vec<u8>,
    level: Option<i16>,
    zstd: ZstdBounds,
) -> (r: Vec<u8>)
    requires
        is_streaming(f),
        zstd.wf(),
    ensures
        r@ == encode_one_spec(f, data@, level, zstd),
{
    match f {
        CompressionFormat::Gzip => gzip_compress(&data, gzip_effective_level(level)),
        CompressionFormat::Bzip => bzip_compress(&data, bzip_effective_level(level)),
        CompressionFormat::Lz4 => lz4_compress(&data),
        CompressionFormat::Lzma => xz_compress(&data, xz_effective_level(level)),
        CompressionFormat::Snappy => snappy_compress(&data, snappy_effective_level(level)),
        CompressionFormat::Zstd => zstd_compress(
            &data,
            zstd_effective_level(level, zstd.min, zstd.max, zstd.default),
        ),
        CompressionFormat::Tar
        | CompressionFormat::Zip
        | CompressionFormat::Rar
        | CompressionFormat::SevenZip => unreached(),
    }
}

/// Apply every format of `formats` to `data` in order, innermost first.
pub fn compress_chain(
    formats: &Vec<CompressionFormat>,
    data: Vec<u8>,
    level: Option<i16>,
    zstd: ZstdBounds,
) -> (r: Vec<u8>)
    requires
        forall|i: int| 0 <= i < formats@.len() ==> is_streaming(#[trigger] formats@[i]),
        zstd.wf(),
    ensures
        r@ == chain_spec(formats@, data@, level, zstd),
{
    let ghost all: Seq<CompressionFormat> = formats@;
    let ghost orig: Seq<u8> = data@;
    proof {
        assert(all.skip(0) =~= all);
    }
    let mut cur = data;
    let mut i: usize = 0;
    while i < formats.len()
        invariant
            i <= formats@.len(),
            formats@ == all,
            forall|j: int| 0 <= j < all.len() ==> is_streaming(#[trigger] all[j]),
            zstd.wf(),
            chain_spec(all.skip(i as int), cur@, level, zstd) == chain_spec(all, orig, level, zstd),
        decreases formats@.len() - i,
    {
        let f = formats[i];
        proof {
            assert(all.skip(i as int)[0] == all[i as int]);
            assert(all.skip(i as int).drop_first() =~= all.skip(i as int + 1));
        }
        cur = encode_with(f, cur, level, zstd);
        i = i + 1;
    }
    proof {
        assert(all.skip(i as int) =~= Seq::<CompressionFormat>::empty());
    }
    cur
}

/// The first action of a request: stream copy for a streaming codec,
/// archive serialization for tar, zip's in-memory confirmation when zip is
/// wrapped by an outer codec, an abort for rar, and temp-directory staging
/// for 7z.
pub open spec fn start_spec(req: CompressRequest) -> Action {
    match req.first_format {
        CompressionFormat::Tar => Action::BuildTarArchive,
        CompressionFormat::Zip => if req.remaining_formats@.len() > 0 {
            Action::AskZipConfirmation
        } else {
            Action::BuildZipArchive
        },
        CompressionFormat::Rar => Action::AbortNotCommitted(AbortReason::RarUnsupported),
        CompressionFormat::SevenZip => Action::StageAndRunSevenZip,
        _ => Action::ReadFirstFile,
    }
}

/// The action that answers the zip in-memory buffering question: build the
/// archive when the user consents, abort without committing when they
/// decline.
pub open spec fn decision_on_confirmation(consent: bool) -> Action {
    if consent {
        Action::BuildZipArchive
    } else {
        Action::AbortNotCommitted(AbortReason::UserDeclined)
    }
}

/// Which events can answer a request's actions.
pub open spec fn event_fits(req: CompressRequest, event: Event) -> bool {
    match event {
        Event::FileRead(_) => is_streaming(req.first_format),
        Event::ArchiveBuilt(_) => req.first_format is Tar || req.first_format is Zip,
        Event::Confirmed(_) => req.first_format is Zip && req.remaining_formats@.len() > 0,
    }
}

/// Whether an action ends the operation with the output committed.
pub open spec fn commits(a: Action) -> bool {
    a is WriteOutput || a is StageAndRunSevenZip
}

/// Whether an action has an archive serialized.
pub open spec fn builds_archive(a: Action) -> bool {
    a is BuildTarArchive || a is BuildZipArchive
}

/// Begin a compression operation: the terminal behaviour of the innermost
/// format decides the first action.
pub fn start(req: &CompressRequest) -> (r: Action)
    ensures
        r == start_spec(*req),
{
    match req.first_format {
        CompressionFormat::Tar => Action::BuildTarArchive,
        CompressionFormat::Zip => if req.remaining_formats.len() > 0 {
            Action::AskZipConfirmation
        } else {
            Action::BuildZipArchive
        },
        CompressionFormat::Rar => Action::AbortNotCommitted(AbortReason::RarUnsupported),
        CompressionFormat::SevenZip => Action::StageAndRunSevenZip,
        _ => Action::ReadFirstFile,
    }
}

/// Advance a compression operation with the outcome of the last action.
///
/// A source file's bytes are encoded by the whole format chain; a
/// serialized archive is encoded by the wrapping formats only; the
/// confirmation answer decides between building the zip archive and
/// aborting uncommitted.
pub fn step(req: &CompressRequest, event: Event) -> (r: Action)
    requires
        req.wf(),
        event_fits(*req, event),
    ensures
        event matches Event::Confirmed(c) ==> r == decision_on_confirmation(c),
        event matches Event::FileRead(data) ==> (r matches Action::WriteOutput(v) && v@
            == chain_spec(req.full_formats(), data@, req.level, req.zstd)),
        event matches Event::ArchiveBuilt(data) ==> (r matches Action::WriteOutput(v) && v@
            == chain_spec(req.remaining_formats@, data@, req.level, req.zstd)),
{
    match event {
        Event::Confirmed(consent) => if consent {
            Action::BuildZipArchive
        } else {
            Action::AbortNotCommitted(AbortReason::UserDeclined)
        },
        Event::FileRead(data) => {
            let ghost before: Seq<u8> = data@;
            let inner = encode_with(req.first_format, data, req.level, req.zstd);
            proof {
                lemma_chain_unfold_first(
                    req.first_format,
                    req.remaining_formats@,
                    before,
                    req.level,
                    req.zstd,
                );
            }
            Action::WriteOutput(compress_chain(&req.remaining_formats, inner, req.level, req.zstd))
        },
        Event::ArchiveBuilt(data) => {
            Action::WriteOutput(compress_chain(&req.remaining_formats, data, req.level, req.zstd))
        },
    }
}

/// A chain over `[first] ++ rest` is first's encoding, then the chain over
/// `rest`.
pub proof fn lemma_chain_unfold_first(
    first: CompressionFormat,
    rest: Seq<CompressionFormat>,
    data: Seq<u8>,
    level: Option<i16>,
    zstd: ZstdBounds,
)
    ensures
        chain_spec(seq![first] + rest, data, level, zstd) == chain_spec(
            rest,
            encode_one_spec(first, data, level, zstd),
            level,
            zstd,
        ),
{
    let s = seq![first] + rest;
    assert(s[0] == first);
    assert(s.drop_first() =~= rest);
}

/// A valid format sequence — archive tokens at most as the innermost
/// element — yields a well-formed request: the encoder-wrapping step's
/// precondition holds for every wrapping format, so building the pipeline
/// never reaches the invariant-violation path.
pub proof fn lemma_valid_sequence_request_wf(req: CompressRequest)
    requires
        valid_format_sequence(req.full_formats()),
        req.zstd.wf(),
    ensures
        req.wf(),
{
    assert forall|j: int|
        0 <= j < req.remaining_formats@.len() implies is_streaming(
        #[trigger] req.remaining_formats@[j],
    ) by {
        assert(req.full_formats()[j + 1] == req.remaining_formats@[j]);
    }
}

/// Declining the zip in-memory buffering confirmation leaves the operation
/// uncommitted and has no archive built.
pub proof fn lemma_declined_zip_aborts()
    ensures
        decision_on_confirmation(false) == Action::AbortNotCommitted(AbortReason::UserDeclined),
        !builds_archive(decision_on_confirmation(false)),
        !commits(decision_on_confirmation(false)),
{
}

/// Zip with no outer codec and zip under outer codecs embed the same
/// archive: the direct path writes the serialized archive bytes unchanged,
/// and the wrapped path writes exactly those bytes passed through the outer
/// codecs, so the logical entry contents of both outputs are identical.
pub proof fn lemma_zip_entries_same_under_outer_codec(
    archive: Seq<u8>,
    rest: Seq<CompressionFormat>,
    level: Option<i16>,
    zstd: ZstdBounds,
)
    ensures
        chain_spec(Seq::<CompressionFormat>::empty(), archive, level, zstd) == archive,
        chain_spec(rest, archive, level, zstd) == chain_spec(
            rest,
            chain_spec(Seq::<CompressionFormat>::empty(), archive, level, zstd),
            level,
            zstd,
        ),
{
}

} // verus!
