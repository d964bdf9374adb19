//! The closed set of ways a word count can fail.

use vstd::prelude::*;

verus! {

/// Why a count attempt failed.
///
/// Exactly one variant is reported per failed attempt:
/// - `UnsupportedFormat`: the path's extension names no known format;
/// - `IOError`: the bytes could not be read or decoded as text;
/// - `ArchiveError`: the ZIP container of a DOCX file is malformed;
/// - `ParseError`: the document XML inside a DOCX file is malformed;
/// - `ExtractionError`: the PDF text extraction failed (encrypted,
///   corrupt, or without a text layer).
#[derive(Clone, Copy, Debug, PartialEq, Eq, Structural)]
pub enum WordCountError {
    UnsupportedFormat,
    IOError,
    ArchiveError,
    ParseError,
    ExtractionError,
}

} // verus!
