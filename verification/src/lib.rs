//! Multi-format compression pipeline builder.
//!
//! Given an ordered, non-empty sequence of compression/archive format tokens
//! (innermost first, as parsed from an output filename's extensions), this
//! library plans and performs the byte transformations that nest each codec's
//! encoding in the correct order, and decides the terminal behaviour for the
//! innermost format: raw stream copy for pure codecs, archive serialization
//! for tar and zip, an in-memory buffering confirmation for zip under an outer
//! codec, an abort for rar, and temp-directory staging for 7z.
//!
//! File and terminal I/O, the tar/zip serializers, the confirmation prompt and
//! the external 7z archiver are collaborators outside this library: callers
//! run the [`compress::start`]/[`compress::step`] loop, performing each
//! returned action and feeding its outcome back in.
pub mod format;
pub mod level;
pub mod codec;
pub mod compress;
pub mod utils;
