//! The application state that the window shell renders: the selected path,
//! the last successful count, and the last failure.
//!
//! At most one of count and error is ever present; picking a new file
//! clears both.

use crate::errors::WordCountError;
use vstd::prelude::*;

verus! {

/// The state behind the window: selected file, last count, last failure.
pub struct AppState {
    pub file_path: String,
    pub word_count: Option<usize>,
    pub error: Option<WordCountError>,
}

/// A state is well formed when a count and an error are not both present.
pub open spec fn state_wf(s: AppState) -> bool {
    !(s.word_count is Some && s.error is Some)
}

impl AppState {
    /// The outcome of the file-picking dialog: a newly chosen path replaces
    /// the old one and clears any previous count or error; a cancelled
    /// dialog leaves the state untouched.
    pub fn select_file(&mut self, picked: Option<String>)
        ensures
            match picked {
                Some(p) => final(self).file_path@ == p@ && final(self).word_count is None
                    && final(self).error is None,
                None => *final(self) == *old(self),
            },
            state_wf(*old(self)) ==> state_wf(*final(self)),
    {
        match picked {
            Some(p) => {
                self.file_path = p;
                self.word_count = None;
                self.error = None;
            },
            None => {},
        }
    }

    /// Records the outcome of a count attempt: a success stores the count
    /// and clears the error, a failure stores the error and clears the
    /// count. The selected path is untouched.
    pub fn record_result(&mut self, outcome: Result<usize, WordCountError>)
        ensures
            state_wf(*final(self)),
            final(self).file_path == old(self).file_path,
            match outcome {
                Ok(n) => final(self).word_count == Some(n) && final(self).error is None,
                Err(e) => final(self).error == Some(e) && final(self).word_count is None,
            },
    {
        match outcome {
            Ok(n) => {
                self.word_count = Some(n);
                self.error = None;
            },
            Err(e) => {
                self.error = Some(e);
                self.word_count = None;
            },
        }
    }
}

impl Default for AppState {
    /// The idle state before any file was picked.
    fn default() -> (s: Self)
        ensures
            s.file_path@ == Seq::<char>::empty(),
            s.word_count is None,
            s.error is None,
            state_wf(s),
    {
        AppState { file_path: String::new(), word_count: None, error: None }
    }
}

} // verus!
