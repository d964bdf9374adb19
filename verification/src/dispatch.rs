//! The format dispatcher: route a file's bytes to the extractor its
//! extension names, or reject the format.

use crate::docx::{count_words_in_docx, docx_count, docx_error};
use crate::errors::WordCountError;
use crate::paths::{ext_of, file_extension};
use crate::pdf::count_words_in_pdf;
use crate::tokens::token_count;
use crate::txt::{count_words_in_txt, utf8_of};
use vstd::prelude::*;

verus! {

/// The file formats the counter knows, and `Other` for the rest.
#[derive(Clone, Copy, Debug, PartialEq, Eq, Structural)]
pub enum FileFormat {
    Txt,
    Docx,
    Pdf,
    Other,
}

/// The format that the path's lowercased extension names.
pub open spec fn format_of(path: Seq<char>) -> FileFormat {
    if ext_of(path) == "txt"@ {
        FileFormat::Txt
    } else if ext_of(path) == "docx"@ {
        FileFormat::Docx
    } else if ext_of(path) == "pdf"@ {
        FileFormat::Pdf
    } else {
        FileFormat::Other
    }
}

/// Reads the format off the path's extension, case-insensitively.
pub fn classify_format(path: &str) -> (f: FileFormat)
    ensures
        f == format_of(path@),
{
    let ext = file_extension(path);
    proof {
        reveal_strlit("txt");
        reveal_strlit("docx");
        reveal_strlit("pdf");
    }
    if ext.len() == 3 && ext[0] == 't' && ext[1] == 'x' && ext[2] == 't' {
        proof {
            assert(ext@ =~= "txt"@);
        }
        FileFormat::Txt
    } else if ext.len() == 4 && ext[0] == 'd' && ext[1] == 'o' && ext[2] == 'c' && ext[3] == 'x' {
        proof {
            assert(ext@ =~= "docx"@);
        }
        FileFormat::Docx
    } else if ext.len() == 3 && ext[0] == 'p' && ext[1] == 'd' && ext[2] == 'f' {
        proof {
            assert(ext@ =~= "pdf"@);
        }
        FileFormat::Pdf
    } else {
        FileFormat::Other
    }
}

/// The count owed for a file at `path` holding `data`, or `None` when an
/// error is owed instead. `pdf_text` is the outcome of the outside PDF
/// text extraction, which runs at the application edge and is handed in;
/// it matters only when the extension names the PDF format.
pub open spec fn expected_count(
    path: Seq<char>,
    data: Seq<u8>,
    pdf_text: Option<Seq<char>>,
) -> Option<nat> {
    match format_of(path) {
        FileFormat::Txt => match utf8_of(data) {
            Some(t) => Some(token_count(t)),
            None => None,
        },
        FileFormat::Docx => docx_count(data),
        FileFormat::Pdf => match pdf_text {
            Some(t) => Some(token_count(t)),
            None => None,
        },
        FileFormat::Other => None,
    }
}

/// The error owed for a file at `path` holding `data`, when no count is.
pub open spec fn expected_error(path: Seq<char>, data: Seq<u8>) -> WordCountError {
    match format_of(path) {
        FileFormat::Txt => WordCountError::IOError,
        FileFormat::Docx => docx_error(data),
        FileFormat::Pdf => WordCountError::ExtractionError,
        FileFormat::Other => WordCountError::UnsupportedFormat,
    }
}

/// `r` is the one outcome owed for a file at `path` holding `data`, with
/// `pdf_text` the handed-in PDF extraction outcome: the owed count when
/// there is one, the owed error otherwise.
pub open spec fn count_outcome(
    r: Result<usize, WordCountError>,
    path: Seq<char>,
    data: Seq<u8>,
    pdf_text: Option<Seq<char>>,
) -> bool {
    match expected_count(path, data, pdf_text) {
        Some(n) => r matches Ok(c) && c == n,
        None => r == Err::<usize, WordCountError>(expected_error(path, data)),
    }
}

/// Counts the words of the file at `file_path` whose raw bytes are
/// `data`: the lowercased extension picks the extractor, the extractor
/// reduces the bytes to text, and the whitespace-delimited tokens of that
/// text are counted.
///
/// `pdf_text` is the outcome of the outside PDF text extraction on
/// `data`, run and contained by the caller; it is read only when the
/// extension names the PDF format, and `None` there means the extraction
/// failed.
pub fn count_words(file_path: &str, data: &[u8], pdf_text: Option<&str>) -> (r: Result<usize, WordCountError>)
    ensures
        count_outcome(r, file_path@, data@, pdf_text.deep_view()),
{
    match classify_format(file_path) {
        FileFormat::Txt => count_words_in_txt(data),
        FileFormat::Docx => count_words_in_docx(data),
        FileFormat::Pdf => count_words_in_pdf(pdf_text),
        FileFormat::Other => Err(WordCountError::UnsupportedFormat),
    }
}

/// Counting is a function of the path, the bytes, and the handed-in
/// extraction outcome alone: two attempts on the same unmodified file,
/// with the same extraction outcome, are owed the same result.
pub proof fn lemma_count_words_deterministic(
    r1: Result<usize, WordCountError>,
    r2: Result<usize, WordCountError>,
    path: Seq<char>,
    data: Seq<u8>,
    pdf_text: Option<Seq<char>>,
)
    requires
        count_outcome(r1, path, data, pdf_text),
        count_outcome(r2, path, data, pdf_text),
    ensures
        r1 == r2,
{
}

/// A path whose extension names no known format is owed exactly
/// `UnsupportedFormat`, whatever the bytes hold; no other failure is
/// reported that way.
pub proof fn lemma_unsupported_format(path: Seq<char>, data: Seq<u8>, pdf_text: Option<Seq<char>>)
    ensures
        format_of(path) == FileFormat::Other <==> (expected_count(path, data, pdf_text) is None
            && expected_error(path, data) == WordCountError::UnsupportedFormat),
{
}

} // verus!
