use std::io::Write;
use word_counter::dispatch::count_words;
use word_counter::errors::WordCountError;
use zip::write::SimpleFileOptions;
use zip::ZipWriter;

/// A ZIP container holding the given entries, built in memory.
fn zip_bytes(entries: &[(&str, &[u8])]) -> Vec<u8> {
    let cursor = std::io::Cursor::new(Vec::new());
    let mut writer = ZipWriter::new(cursor);
    for (name, data) in entries {
        writer
            .start_file(*name, SimpleFileOptions::default())
            .unwrap();
        writer.write_all(data).unwrap();
    }
    writer.finish().unwrap().into_inner()
}

fn docx_with_body(body: &str) -> Vec<u8> {
    let xml = format!(
        "<?xml version=\"1.0\" encoding=\"UTF-8\"?><w:document \
         xmlns:w=\"http://schemas.openxmlformats.org/wordprocessingml/2006/main\">\
         <w:body>{}</w:body></w:document>",
        body
    );
    zip_bytes(&[("word/document.xml", xml.as_bytes())])
}

#[test]
fn docx_text_nodes_summed_per_node() {
    // The two text nodes concatenate to "Quarterly Report 2024", yet the
    // count is taken node by node, so the run split across the node
    // boundary counts twice: four tokens, not three.
    let data = docx_with_body("<w:p><w:r><w:t>Quarterly Re</w:t></w:r><w:r><w:t>port 2024</w:t></w:r></w:p>");
    let r = count_words("report.docx", &data, None);
    assert_eq!(r, Ok(4));
}

#[test]
fn docx_single_paragraph() {
    let data = docx_with_body("<w:p><w:r><w:t>one two three</w:t></w:r></w:p>");
    let r = count_words("simple.docx", &data, None);
    assert_eq!(r, Ok(3));
}

#[test]
fn docx_empty_body_counts_zero() {
    let data = docx_with_body("");
    let r = count_words("empty.docx", &data, None);
    assert_eq!(r, Ok(0));
}

#[test]
fn docx_without_document_entry_counts_zero() {
    let data = zip_bytes(&[("word/other.xml", b"<a>text here</a>")]);
    let r = count_words("hollow.docx", &data, None);
    assert_eq!(r, Ok(0));
}

#[test]
fn docx_empty_archive_counts_zero() {
    let data = zip_bytes(&[]);
    let r = count_words("bare.docx", &data, None);
    assert_eq!(r, Ok(0));
}

#[test]
fn docx_truncated_archive_is_archive_error() {
    let whole = docx_with_body("<w:p><w:r><w:t>cut short</w:t></w:r></w:p>");
    let cut = &whole[..whole.len() / 2];
    let r = count_words("broken.docx", cut, None);
    assert_eq!(r, Err(WordCountError::ArchiveError));
}

#[test]
fn docx_garbage_bytes_are_archive_error() {
    let r = count_words("noise.docx", b"this is not a zip archive at all", None);
    assert_eq!(r, Err(WordCountError::ArchiveError));
}

#[test]
fn docx_malformed_xml_is_parse_error() {
    let data = zip_bytes(&[("word/document.xml", b"<w:document><w:body></w:document>")]);
    let r = count_words("mangled.docx", &data, None);
    assert_eq!(r, Err(WordCountError::ParseError));
}

#[test]
fn docx_undecodable_entry_is_io_error() {
    let data = zip_bytes(&[("word/document.xml", &[0xff, 0xfe, 0x00, 0x01])]);
    let r = count_words("undecodable.docx", &data, None);
    assert_eq!(r, Err(WordCountError::IOError));
}

#[test]
fn docx_entities_are_unescaped_before_counting() {
    // "&amp;a &lt;b&gt; &#72;i" unescapes to "&a <b> Hi": three tokens.
    let data = docx_with_body("<w:p><w:r><w:t>&amp;a &lt;b&gt; &#72;i</w:t></w:r></w:p>");
    let r = count_words("escaped.docx", &data, None);
    assert_eq!(r, Ok(3));
}

#[test]
fn docx_counted_twice_gives_same_count() {
    let data = docx_with_body("<w:p><w:r><w:t>stable counts</w:t></w:r></w:p>");
    let first = count_words("twice.docx", &data, None);
    let second = count_words("twice.docx", &data, None);
    assert_eq!(first, Ok(2));
    assert_eq!(first, second);
}
