//! The failures that UUID operations report.

use vstd::prelude::*;

verus! {

/// Why an operation could not produce a UUID.
#[derive(Clone, Copy, Debug, PartialEq, Eq, Structural)]
pub enum Error {
    /// A text or byte input has the wrong length.
    InvalidLength { expected: usize, actual: usize },
    /// A character that is neither a hex digit nor allowed punctuation.
    InvalidCharacter { position: usize },
    /// A hyphen is missing from, or found outside, its fixed position.
    InvalidGroupPosition { position: usize },
    /// The entropy provider could not deliver random bytes.
    EntropyUnavailable,
}

} // verus!
