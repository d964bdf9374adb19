use word_counter::errors::WordCountError;
use word_counter::state::AppState;

#[test]
fn initial_state_is_idle() {
    let s = AppState::default();
    assert_eq!(s.file_path, "");
    assert_eq!(s.word_count, None);
    assert_eq!(s.error, None);
}

#[test]
fn picking_a_file_sets_the_path() {
    let mut s = AppState::default();
    s.select_file(Some(String::from("notes.txt")));
    assert_eq!(s.file_path, "notes.txt");
    assert_eq!(s.word_count, None);
    assert_eq!(s.error, None);
}

#[test]
fn cancelled_dialog_changes_nothing() {
    let mut s = AppState::default();
    s.select_file(Some(String::from("notes.txt")));
    s.record_result(Ok(7));
    s.select_file(None);
    assert_eq!(s.file_path, "notes.txt");
    assert_eq!(s.word_count, Some(7));
    assert_eq!(s.error, None);
}

#[test]
fn success_stores_count_and_clears_error() {
    let mut s = AppState::default();
    s.select_file(Some(String::from("a.txt")));
    s.record_result(Err(WordCountError::IOError));
    s.record_result(Ok(3));
    assert_eq!(s.word_count, Some(3));
    assert_eq!(s.error, None);
}

#[test]
fn failure_stores_error_and_clears_count() {
    let mut s = AppState::default();
    s.select_file(Some(String::from("a.txt")));
    s.record_result(Ok(3));
    s.record_result(Err(WordCountError::UnsupportedFormat));
    assert_eq!(s.word_count, None);
    assert_eq!(s.error, Some(WordCountError::UnsupportedFormat));
}

#[test]
fn picking_a_new_file_clears_count_and_error() {
    let mut s = AppState::default();
    s.select_file(Some(String::from("first.txt")));
    s.record_result(Ok(12));
    s.select_file(Some(String::from("second.pdf")));
    assert_eq!(s.file_path, "second.pdf");
    assert_eq!(s.word_count, None);
    assert_eq!(s.error, None);

    s.record_result(Err(WordCountError::ExtractionError));
    s.select_file(Some(String::from("third.docx")));
    assert_eq!(s.file_path, "third.docx");
    assert_eq!(s.word_count, None);
    assert_eq!(s.error, None);
}
