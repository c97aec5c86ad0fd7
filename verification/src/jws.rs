//! JSON Web Signature: the signer a caller supplies, and the builder of
//! documents that carry several signatures.

use crate::error::JoseError;
use vstd::prelude::*;

pub mod document;
pub mod multi_signer;
pub mod text;

verus! {

/// What a call of [`JwsSigner::sign`] came back with, the signature taken as
/// a sequence of bytes.
pub open spec fn outcome_view(outcome: Result<Vec<u8>, JoseError>) -> Result<Seq<u8>, JoseError> {
    match outcome {
        Ok(signature) => Ok(signature@),
        Err(error) => Err(error),
    }
}

/// Something that signs messages: a key together with an algorithm.
pub trait JwsSigner {
    /// Whether this signer may answer `message` with `outcome`. A signer
    /// that does not say admits every outcome.
    open spec fn answers(&self, message: Seq<u8>, outcome: Result<Seq<u8>, JoseError>) -> bool {
        true
    }

    /// Signs `message`: returns the raw signature bytes, or the reason why
    /// there are none.
    fn sign(&self, message: &[u8]) -> (outcome: Result<Vec<u8>, JoseError>)
        ensures
            self.answers(message@, outcome_view(outcome)),
    ;
}

} // verus!
