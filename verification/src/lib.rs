//! A word-counting library for plain-text, DOCX and PDF files.
//!
//! A file is handed over as its raw bytes together with its path; the path's
//! extension picks the extractor, the extractor reduces the bytes to text,
//! and the text is split on whitespace into tokens, which are counted. For
//! PDF files the text extraction itself runs at the application edge, which
//! contains any abort of the extraction routine and hands the outcome in.

pub mod dispatch;
pub mod docx;
pub mod errors;
pub mod paths;
pub mod pdf;
pub mod state;
pub mod tokens;
pub mod txt;
