//! The plain-text extractor: decode the bytes as UTF-8 and count tokens.

use crate::errors::WordCountError;
use crate::tokens::{count_tokens, token_count};
use vstd::prelude::*;

verus! {

/// The text that the bytes `data` decode to as UTF-8, or `None` when they
/// are not valid UTF-8. A function of the bytes alone.
pub uninterp spec fn utf8_of(data: Seq<u8>) -> Option<Seq<char>>;

/// Relies on std's `String::from_utf8`: decoding succeeds exactly on valid
/// UTF-8 and depends on the bytes alone.
#[verifier::external_body]
fn decode_utf8(data: &[u8]) -> (r: Option<String>)
    ensures
        r is Some <==> utf8_of(data@) is Some,
        r matches Some(s) ==> s@ == utf8_of(data@).unwrap(),
{
    String::from_utf8(data.to_vec()).ok()
}

/// Counts the whitespace-delimited tokens of a plain-text file's bytes.
///
/// Bytes that are not valid text are rejected as `IOError`; otherwise the
/// count is the number of maximal non-whitespace runs of the decoded text.
pub fn count_words_in_txt(data: &[u8]) -> (r: Result<usize, WordCountError>)
    ensures
        utf8_of(data@) matches Some(t) ==> r matches Ok(c) && c == token_count(t),
        utf8_of(data@) is None ==> r == Err::<usize, WordCountError>(WordCountError::IOError),
{
    match decode_utf8(data) {
        Some(text) => Ok(count_tokens(text.as_str())),
        None => Err(WordCountError::IOError),
    }
}

} // verus!
