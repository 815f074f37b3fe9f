//! Ingestion core for compressed, line-delimited JSON log archives.
//!
//! One decoded line moves through three verified stages: the envelope parser
//! builds a [`structs::Message`] from the values extracted out of the JSON
//! object, the pattern engine derives typed fields from the free message
//! text, and the record builder serializes a line-protocol metric record.
//! Streaming decompression, JSON navigation and all file handling stay with
//! the caller; the library receives plain values and returns plain values.

pub mod chars;
pub mod fields;
pub mod grok;
pub mod structs;
pub mod timeparse;
pub mod envelope;
pub mod prefix;
pub mod pipeline;
pub mod record;
