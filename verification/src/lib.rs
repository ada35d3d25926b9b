//! Turns a raw email message into a fixed-layout incident-report model.
//!
//! The pipeline has two verified stages: extraction of header key/value
//! data and body-part metadata from a raw MIME byte stream (the MIME
//! grammar itself is decoded by the `mailparse` crate behind a trusted
//! wrapper), and deterministic assembly of the extracted data into an
//! ordered report model. Rendering the model to a document file and all
//! file I/O live outside this library.

pub mod headers;
pub mod textutil;
pub mod mail;
pub mod derived;
pub mod report;
