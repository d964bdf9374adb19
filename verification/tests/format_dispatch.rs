use word_counter::dispatch::{classify_format, count_words, FileFormat};
use word_counter::errors::WordCountError;
use word_counter::paths::file_extension;

#[test]
fn unsupported_extension_md() {
    let r = count_words("readme.md", "some words here".as_bytes(), None);
    assert_eq!(r, Err(WordCountError::UnsupportedFormat));
}

#[test]
fn unsupported_no_extension() {
    let r = count_words("Makefile", "some words here".as_bytes(), None);
    assert_eq!(r, Err(WordCountError::UnsupportedFormat));
}

#[test]
fn unsupported_trailing_dot() {
    let r = count_words("oddly.", "some words".as_bytes(), None);
    assert_eq!(r, Err(WordCountError::UnsupportedFormat));
}

#[test]
fn unsupported_hidden_file() {
    let r = count_words(".txt", "hidden".as_bytes(), None);
    assert_eq!(r, Err(WordCountError::UnsupportedFormat));
}

#[test]
fn extension_is_case_insensitive() {
    let r = count_words("LOUD.TXT", "ONE TWO THREE".as_bytes(), None);
    assert_eq!(r, Ok(3));
    assert_eq!(classify_format("mixed.DocX"), FileFormat::Docx);
    assert_eq!(classify_format("paper.Pdf"), FileFormat::Pdf);
}

#[test]
fn classification_by_extension() {
    assert_eq!(classify_format("a.txt"), FileFormat::Txt);
    assert_eq!(classify_format("a.docx"), FileFormat::Docx);
    assert_eq!(classify_format("a.pdf"), FileFormat::Pdf);
    assert_eq!(classify_format("a.odt"), FileFormat::Other);
    assert_eq!(classify_format("a"), FileFormat::Other);
}

#[test]
fn extension_of_nested_path() {
    let ext = file_extension("dir.with.dots/archive.TAR.GZ");
    assert_eq!(ext, vec!['g', 'z']);
}

#[test]
fn extension_empty_cases() {
    assert_eq!(file_extension("noext"), Vec::<char>::new());
    assert_eq!(file_extension(".bashrc"), Vec::<char>::new());
    assert_eq!(file_extension("a.b/plain"), Vec::<char>::new());
    assert_eq!(file_extension("dir/.hidden"), Vec::<char>::new());
    assert_eq!(file_extension(""), Vec::<char>::new());
}

#[test]
fn dispatch_only_looks_at_extension() {
    let data = "whatever bytes".as_bytes();
    let r1 = count_words("one.txt", data, None);
    let r2 = count_words("two.txt", data, None);
    assert_eq!(r1, r2);
}
