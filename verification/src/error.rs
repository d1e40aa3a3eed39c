//! Why a read can fail.

use ascii::AsAsciiStrError;
use vstd::prelude::*;

verus! {

/// `std::io::Error`, the fault of a source. The library carries it and
/// never looks inside.
#[verifier::external_type_specification]
#[verifier::external_body]
pub struct ExIoError(std::io::Error);

/// The failure of one read: either the source faulted, or the text it
/// delivered is not all ASCII.
#[derive(Debug)]
pub enum AsciiReadError {
    /// The source's own read failed. The fault is the source's, unchanged.
    Io(std::io::Error),
    /// The text read holds a character that is not ASCII. The fault says
    /// where the first such character stands.
    Ascii(AsAsciiStrError),
}

} // verus!
