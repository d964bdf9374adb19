//! The DOCX extractor: open the bytes as a ZIP container, read the main
//! document part `word/document.xml`, parse it as XML, and count the tokens
//! of all its text nodes.

use crate::errors::WordCountError;
use crate::tokens::{
    count_tokens, lemma_sum_token_counts_le_sum_lens, lemma_sum_token_counts_take_le,
    lemma_sum_token_counts_take_succ, sum_lens, sum_token_counts, token_count,
};
use std::io::Cursor;
use std::io::Read;
use vstd::prelude::*;
use vstd::string::StrSliceExecFns;
use zip::read::ZipArchive;
use zip::result::ZipError;

verus! {

#[verifier::external_type_specification]
#[verifier::external_body]
#[verifier::reject_recursive_types(T)]
pub struct ExCursor<T>(Cursor<T>);

#[verifier::external_type_specification]
#[verifier::external_body]
#[verifier::reject_recursive_types(R)]
pub struct ExZipArchive<R>(ZipArchive<R>);

#[verifier::external_type_specification]
#[verifier::external_body]
pub struct ExZipError(ZipError);

/// The entries of the ZIP container `data`, as a map from entry name to the
/// text the entry holds (`None` inside for an entry that does not
/// decompress and decode to text), or `None` when the container structure
/// itself is malformed. A function of the bytes alone.
pub uninterp spec fn zip_entries_of(data: Seq<u8>) -> Option<Map<Seq<char>, Option<Seq<char>>>>;

/// What the open archive `a` holds, named entry by entry.
pub uninterp spec fn archive_contents(a: ZipArchive<Cursor<Vec<u8>>>) -> Map<
    Seq<char>,
    Option<Seq<char>>,
>;

/// Relies on zip's `ZipArchive::new`: it parses the central directory of
/// the bytes behind the reader, a function of those bytes alone, and
/// succeeds exactly when the container structure is valid.
#[verifier::external_body]
fn zip_open(data: &[u8]) -> (r: Result<ZipArchive<Cursor<Vec<u8>>>, ZipError>)
    ensures
        r is Ok <==> zip_entries_of(data@) is Some,
        r matches Ok(a) ==> archive_contents(a) == zip_entries_of(data@).unwrap(),
{
    ZipArchive::new(Cursor::new(data.to_vec()))
}

/// Relies on zip's `ZipArchive::by_name` and on std's `Read::read_to_string`
/// over the entry it returns: an absent name is `FileNotFound`, which comes
/// back as `Ok(None)`; a present entry that decompresses and decodes to text
/// comes back whole; any other outcome is an error. Looking an entry up does
/// not change what the archive holds.
#[verifier::external_body]
fn zip_entry_text(a: &mut ZipArchive<Cursor<Vec<u8>>>, name: &str) -> (r: Result<Option<String>, ZipError>)
    ensures
        archive_contents(*final(a)) == archive_contents(*old(a)),
        !archive_contents(*old(a)).contains_key(name@) ==> (r matches Ok(v) && v is None),
        archive_contents(*old(a)).contains_key(name@) && archive_contents(*old(a))[name@] is Some
            ==> (r matches Ok(v) && v matches Some(s) && s@ == archive_contents(*old(a))[name@].unwrap()),
        archive_contents(*old(a)).contains_key(name@) && archive_contents(*old(a))[name@] is None
            ==> r is Err,
{
    match a.by_name(name) {
        Ok(mut f) => {
            let mut s = String::new();
            match f.read_to_string(&mut s) {
                Ok(_) => Ok(Some(s)),
                Err(e) => Err(ZipError::Io(e)),
            }
        },
        Err(ZipError::FileNotFound) => Ok(None),
        Err(e) => Err(e),
    }
}

#[verifier::external_type_specification]
#[verifier::external_body]
pub struct ExXmlError(quick_xml::Error);

/// The unescaped text nodes of the XML document `s`, in document order,
/// with leading and trailing whitespace trimmed and whitespace-only nodes
/// dropped; `None` when the document is malformed or an entity cannot be
/// unescaped. A function of `s` alone.
pub uninterp spec fn xml_texts_of(s: Seq<char>) -> Option<Seq<Seq<char>>>;

/// Relies on quick_xml's `Reader::from_str` with text trimming, reading
/// events to the end of the document: the text-node events, unescaped, in
/// document order, a function of the document alone; the first malformed
/// construct or failing unescape is the error. Each text node is a trimmed,
/// unescaped span of the document, and unescaping never lengthens text
/// (a character or entity reference is at least as long as what it stands
/// for), so the summed lengths are bounded by the document's length.
#[verifier::external_body]
fn xml_text_nodes(s: &str) -> (r: Result<Vec<String>, quick_xml::Error>)
    ensures
        r is Ok <==> xml_texts_of(s@) is Some,
        r matches Ok(v) ==> v.deep_view() == xml_texts_of(s@).unwrap(),
        r is Ok ==> sum_lens(xml_texts_of(s@).unwrap()) <= s@.len(),
{
    let mut reader = quick_xml::Reader::from_str(s);
    reader.trim_text(true);
    let mut texts: Vec<String> = Vec::new();
    loop {
        match reader.read_event() {
            Ok(quick_xml::events::Event::Eof) => return Ok(texts),
            Ok(quick_xml::events::Event::Text(t)) => match t.unescape() {
                Ok(c) => texts.push(c.into_owned()),
                Err(e) => return Err(e),
            },
            Ok(_) => (),
            Err(e) => return Err(e),
        }
    }
}

/// The count owed for the DOCX container `data`, or `None` when an error is
/// owed instead: the summed token counts of the text nodes of the entry
/// `word/document.xml`, and zero when the container has no such entry.
pub open spec fn docx_count(data: Seq<u8>) -> Option<nat> {
    match zip_entries_of(data) {
        None => None,
        Some(m) => if !m.contains_key("word/document.xml"@) {
            Some(0)
        } else {
            match m["word/document.xml"@] {
                None => None,
                Some(text) => match xml_texts_of(text) {
                    None => None,
                    Some(ts) => Some(sum_token_counts(ts)),
                },
            }
        },
    }
}

/// The error owed for the DOCX container `data` when [`docx_count`] owes
/// none: a malformed container, an unreadable document entry, or malformed
/// XML, in that order of discovery.
pub open spec fn docx_error(data: Seq<u8>) -> WordCountError {
    match zip_entries_of(data) {
        None => WordCountError::ArchiveError,
        Some(m) => if m.contains_key("word/document.xml"@) && m["word/document.xml"@] is None {
            WordCountError::IOError
        } else {
            WordCountError::ParseError
        },
    }
}

/// Counts the whitespace-delimited tokens of the body text of a DOCX file.
///
/// The bytes are opened as a ZIP container (`ArchiveError` when malformed);
/// a container without a `word/document.xml` entry counts zero words; an
/// entry that cannot be read as text is an `IOError`; malformed XML inside
/// it is a `ParseError`. Otherwise the count sums the tokens of every text
/// node of the document, in document order.
pub fn count_words_in_docx(data: &[u8]) -> (r: Result<usize, WordCountError>)
    ensures
        docx_count(data@) matches Some(n) ==> r matches Ok(c) && c == n,
        docx_count(data@) is None ==> r == Err::<usize, WordCountError>(docx_error(data@)),
{
    let mut archive = match zip_open(data) {
        Ok(a) => a,
        Err(_) => {
            return Err(WordCountError::ArchiveError);
        },
    };
    let text = match zip_entry_text(&mut archive, "word/document.xml") {
        Ok(Some(t)) => t,
        Ok(None) => {
            return Ok(0);
        },
        Err(_) => {
            return Err(WordCountError::IOError);
        },
    };
    let xml_len = text.as_str().unicode_len();
    let texts = match xml_text_nodes(text.as_str()) {
        Ok(ts) => ts,
        Err(_) => {
            return Err(WordCountError::ParseError);
        },
    };
    let ghost tsv: Seq<Seq<char>> = texts.deep_view();
    proof {
        lemma_sum_token_counts_le_sum_lens(tsv);
        assert(tsv.take(0) =~= Seq::<Seq<char>>::empty());
    }
    let mut total: usize = 0;
    let mut k: usize = 0;
    while k < texts.len()
        invariant
            tsv == texts.deep_view(),
            texts@.len() == tsv.len(),
            k <= texts.len(),
            total == sum_token_counts(tsv.take(k as int)),
            sum_token_counts(tsv) <= sum_lens(tsv) <= xml_len,
        decreases texts@.len() - k,
    {
        let c = count_tokens(texts[k].as_str());
        proof {
            assert(texts@[k as int].deep_view() == tsv[k as int]);
            lemma_sum_token_counts_take_succ(tsv, k as int);
            lemma_sum_token_counts_take_le(tsv, k as int + 1);
        }
        total = total + c;
        k = k + 1;
    }
    proof {
        assert(tsv.take(texts@.len() as int) =~= tsv);
    }
    Ok(total)
}

} // verus!
