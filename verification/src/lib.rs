//! Option resolution for a QR-code command-line tool.
//!
//! The library decides, from partial user input, what text to encode,
//! which output format to use, and where the result goes. The actual
//! QR-matrix computation, rendering, argument parsing and I/O live
//! outside the library.

pub mod chars;
pub mod format;
pub mod opts;
pub mod source;
