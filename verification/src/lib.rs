//! Validated ASCII line reading over a buffered text source.
//!
//! A source hands out one line of text per read. The reader accepts the line
//! only if every character of it is ASCII, and appends it, terminator
//! included, to an [`ascii::AsciiString`]. The line iterator strips the
//! terminator and stops for good at the first read of zero bytes.

pub mod buffer;
pub mod error;
pub mod lines;
pub mod reader;
pub mod terminator;

pub use error::AsciiReadError;
pub use lines::AsciiLines;
pub use reader::AsciiBufRead;
