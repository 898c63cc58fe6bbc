//! Encoder, decoder and validator for the PCM variant of the WAVE audio
//! container format.
//!
//! A [`format::Format`] value is the parsed image of a WAVE-PCM file: the
//! thirteen fixed header fields, each kept in wire order (little-endian
//! bytes), plus the raw sample payload. `encode` builds one from raw
//! parameters, `decode` parses one out of a byte image, `serialize` writes
//! the byte image back, and `check` reports every header invariant that a
//! value violates.

pub mod format;
pub mod laws;
pub mod model;
pub mod report;

pub use format::read2;
pub use format::read4;
pub use format::readn;
pub use format::Format;
pub use report::Expected;
pub use report::Field;
pub use report::OverflowError;
pub use report::Violation;
