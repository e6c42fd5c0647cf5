//! The failures that the library reports as values.

use vstd::prelude::*;

verus! {

/// Why an operation was refused.
#[derive(Debug, Clone, Copy, PartialEq, Eq, Structural)]
pub enum Error {
    /// A record was addressed at a position at or past the end of its
    /// collection.
    IndexOutOfRange,
    /// The parts of a record do not have the shape that the record requires.
    Decode,
}

} // verus!
