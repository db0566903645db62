//! The error taxonomy of the signing engine.

use vstd::prelude::*;

verus! {

/// A structural problem found while signing, verifying, or generating keys.
///
/// A `verify` mismatch (the signature simply differs) is not an error: it is
/// the defined `false` result. Only structural problems are reported here.
#[derive(Clone, Copy, Debug, PartialEq, Eq, Structural)]
pub enum TextError {
    /// Fewer key bytes were supplied than the scheme requires.
    KeyTooShort,
    /// The key bytes do not decode to a valid key for the scheme.
    InvalidKey,
    /// The signature buffer has the wrong length for the scheme.
    MalformedSignature,
    /// The content source could not be read; propagated by callers that do
    /// I/O, never produced by the engine itself.
    IoFailure,
    /// The format tag string names no known scheme; surfaced at the boundary,
    /// never reaches the engine core.
    UnknownFormat,
}

impl TextError {
    /// A short human-readable description of the error.
    pub fn message(&self) -> (r: &'static str)
        ensures
            r@ == self.spec_message(),
    {
        match self {
            TextError::KeyTooShort => "key is shorter than the scheme requires",
            TextError::InvalidKey => "key bytes do not decode to a valid key",
            TextError::MalformedSignature => "signature has the wrong length for the scheme",
            TextError::IoFailure => "content source could not be read",
            TextError::UnknownFormat => "unknown signature format",
        }
    }

    /// What `message` returns for each variant.
    pub open spec fn spec_message(&self) -> Seq<char> {
        match self {
            TextError::KeyTooShort => "key is shorter than the scheme requires"@,
            TextError::InvalidKey => "key bytes do not decode to a valid key"@,
            TextError::MalformedSignature => "signature has the wrong length for the scheme"@,
            TextError::IoFailure => "content source could not be read"@,
            TextError::UnknownFormat => "unknown signature format"@,
        }
    }
}

} // verus!
