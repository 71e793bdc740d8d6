//! Importing a JSON array of fixed-shape records.
//!
//! The text of a document is parsed by `serde_json`; what the array holds is
//! then decoded into [`record::Record`]s by verified code, and the outcome is
//! turned into the one line that a program prints about it.

pub mod decimal;
pub mod decode;
pub mod document;
pub mod error;
pub mod import;
pub mod laws;
pub mod record;
pub mod report;
