//! The PDF extractor's verified half: counting the tokens of a document's
//! extracted text.
//!
//! The text extraction itself runs at the application edge, not here:
//! pdf_extract's `extract_text_from_mem` can abort on malformed documents,
//! so the library never calls it. The caller runs it, contains any abort,
//! and hands the outcome in as a plain value.

use crate::errors::WordCountError;
use crate::tokens::{count_tokens, token_count};
use vstd::prelude::*;

verus! {

/// Counts the whitespace-delimited tokens of a PDF file's extracted text.
///
/// `extracted` is the outcome of the outside text extraction: the
/// concatenated text of all pages, or `None` when extraction failed (an
/// encrypted or corrupt document, one without a text layer, or an
/// extraction abort). A failed extraction is rejected as
/// `ExtractionError`; otherwise the count is the number of maximal
/// non-whitespace runs of the extracted text.
pub fn count_words_in_pdf(extracted: Option<&str>) -> (r: Result<usize, WordCountError>)
    ensures
        extracted matches Some(t) ==> r matches Ok(c) && c == token_count(t@),
        extracted is None ==> r == Err::<usize, WordCountError>(WordCountError::ExtractionError),
{
    match extracted {
        Some(text) => Ok(count_tokens(text)),
        None => Err(WordCountError::ExtractionError),
    }
}

} // verus!
