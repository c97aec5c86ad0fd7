//! Errors of the signature builder.

use vstd::prelude::*;

verus! {

/// The part of a signature entry that an encoding error is about.
#[derive(Debug, Clone, Copy, PartialEq, Eq)]
pub enum EntryField {
    /// The protected header.
    Protected,
    /// The unprotected header.
    Header,
    /// The signature bytes.
    Signature,
}

/// Why a signature could not be added or a document could not be written.
#[derive(Debug, PartialEq, Eq)]
pub enum JoseError {
    /// The named field cannot be encoded: a header has no JSON text, or the
    /// bytes to encode are longer than this machine can encode.
    Encoding(EntryField),
    /// The signer failed. The text is the signer's own account of why.
    Signing(String),
}

} // verus!
