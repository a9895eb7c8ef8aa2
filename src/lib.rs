//! Extraction and normalization of business-register records.
//!
//! Each record arrives as the text of one nested-element document. Its events
//! are walked into an accumulator of raw values (`extract`), which is then
//! checked against the record's rules and turned into a typed record
//! (`normalize`). `parser` joins the two and handles groups of records.

pub mod extract;
pub mod model;
pub mod normalize;
pub mod parser;
pub mod text;
