//! Error taxonomy of the decoder.

use vstd::prelude::*;

verus! {

/// Why a decode failed. A failed decode yields exactly one of these and
/// never a partially populated recording.
#[derive(Debug)]
pub enum DecodeError {
    /// The container could not be opened or read at all.
    IoError(String),
    /// An expected group or dataset is absent, or a shape invariant is
    /// violated (odd raw column count, mismatched optode row counts,
    /// fewer than two distinct wavelengths).
    StructuralError(String),
    /// A dataset's stored type does not match the expected scalar or
    /// array type.
    TypeError(String),
}

impl DecodeError {
    /// Human-readable description of the failure.
    pub fn describe(&self) -> (r: String)
        ensures
            r@ == self.message()@,
    {
        match self {
            DecodeError::IoError(m) => m.clone(),
            DecodeError::StructuralError(m) => m.clone(),
            DecodeError::TypeError(m) => m.clone(),
        }
    }

    /// The message carried by the error, whatever its kind.
    pub open spec fn message(&self) -> String {
        match self {
            DecodeError::IoError(m) => *m,
            DecodeError::StructuralError(m) => *m,
            DecodeError::TypeError(m) => *m,
        }
    }
}

} // verus!
