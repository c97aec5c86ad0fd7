//! The builder of a document with several signatures.

use crate::base64url::{
    base64url_text, encodable_len, encode, encode_config_url_safe_no_pad, is_base64url,
};
use crate::error::{EntryField, JoseError};
use crate::json::{json_object_text, object_text, JsonObject};
use crate::jws::document::{
    attached, protected_field, signature_field, JwsMultiSignerView, SignatureEntryView,
};
use crate::jws::text::{signing_message, texts, write_document, write_entry};
use crate::jws::{outcome_view, JwsSigner};
use vstd::prelude::*;

verus! {

/// One signature as the builder keeps it.
struct SignatureEntry {
    protected: String,
    header: JsonObject,
    signature: String,
}

impl View for SignatureEntry {
    type V = SignatureEntryView;

    closed spec fn view(&self) -> SignatureEntryView {
        SignatureEntryView {
            protected: self.protected@,
            header: json_object_text(self.header),
            signature: self.signature@,
        }
    }
}

/// Collects signatures over one payload and writes the document.
pub struct JwsMultiSigner {
    payload: String,
    signatures: Vec<SignatureEntry>,
}

impl View for JwsMultiSigner {
    type V = JwsMultiSignerView;

    closed spec fn view(&self) -> JwsMultiSignerView {
        JwsMultiSignerView {
            payload: self.payload@,
            signatures: self.signatures@.map_values(|entry: SignatureEntry| entry@),
        }
    }
}

/// The protected field for `header`, where it can be encoded.
fn encode_protected(header: &JsonObject) -> (r: Option<String>)
    ensures
        match r {
            Some(protected) => protected_field(*header) == Some(protected@) && is_base64url(
                protected@,
            ),
            None => protected_field(*header) is None,
        },
{
    match object_text(header) {
        Some(text) => encode(text.as_str().as_bytes()),
        None => None,
    }
}

impl JwsMultiSigner {
    #[verifier::type_invariant]
    closed spec fn well_formed(&self) -> bool {
        self@.is_well_formed()
    }

    /// Starts a document for `payload`, with no signature. The payload has
    /// to be short enough for its encoding to fit in a string.
    pub fn new(payload: &[u8]) -> (r: Self)
        requires
            encodable_len(payload@.len()),
        ensures
            r@ == JwsMultiSignerView::unsigned(base64url_text(payload@)),
            r@.is_well_formed(),
    {
        let r = JwsMultiSigner {
            payload: encode_config_url_safe_no_pad(payload),
            signatures: Vec::new(),
        };
        assert(r@.signatures =~= Seq::empty());
        r
    }

    /// The bytes that a signer has to sign for `protected_header`. They do
    /// not depend on the signatures that the document already has.
    pub fn signing_input(&self, protected_header: &JsonObject) -> (r: Result<Vec<u8>, JoseError>)
        ensures
            match self@.message_for(*protected_header) {
                Some(bytes) => r matches Ok(message) && message@ == bytes,
                None => r == Err::<Vec<u8>, JoseError>(JoseError::Encoding(EntryField::Protected)),
            },
    {
        match encode_protected(protected_header) {
            Some(protected) => Ok(signing_message(protected.as_str(), self.payload.as_str())),
            None => Err(JoseError::Encoding(EntryField::Protected)),
        }
    }

    /// Adds the entry for an encoded protected field and a signer's answer.
    fn push_outcome(
        &mut self,
        protected: String,
        unprotected_header: &JsonObject,
        outcome: Result<Vec<u8>, JoseError>,
    ) -> (r: Result<(), JoseError>)
        requires
            is_base64url(protected@),
        ensures
            match outcome_view(outcome) {
                Err(error) => r == Err::<(), JoseError>(error) && final(self)@ == old(self)@,
                Ok(bytes) => match signature_field(bytes) {
                    None => r == Err::<(), JoseError>(JoseError::Encoding(EntryField::Signature))
                        && final(self)@ == old(self)@,
                    Some(signature) => r == Ok::<(), JoseError>(()) && final(self)@ == old(self)@
                        .with_signature(
                        SignatureEntryView::of(protected@, *unprotected_header, signature),
                    ),
                },
            },
            final(self)@.is_well_formed(),
    {
        proof {
            use_type_invariant(&*self);
        }
        let bytes = match outcome {
            Ok(bytes) => bytes,
            Err(error) => {
                return Err(error);
            },
        };
        let signature = match encode(bytes.as_slice()) {
            Some(signature) => signature,
            None => {
                return Err(JoseError::Encoding(EntryField::Signature));
            },
        };
        let entry = SignatureEntry { protected, header: unprotected_header.clone(), signature };
        // The entries leave `self` for the push, so that `self` is well
        // formed at every call that borrows one of its fields.
        let mut signatures: Vec<SignatureEntry> = Vec::new();
        core::mem::swap(&mut self.signatures, &mut signatures);
        signatures.push(entry);
        proof {
            let view_of = |entry: SignatureEntry| entry@;
            assert(signatures@.map_values(view_of) =~= old(self)@.signatures.push(entry@));
        }
        self.signatures = signatures;
        Ok(())
    }

    /// Has `signer` sign the payload under `protected_header` and adds the
    /// signature behind those that the document has.
    ///
    /// The signer is handed what [`Self::signing_input`] gives for the
    /// protected header. If the protected header cannot be encoded the signer
    /// is not asked. Whatever fails, the document stays as it was.
    pub fn add_signature(
        &mut self,
        signer: &dyn JwsSigner,
        protected_header: &JsonObject,
        unprotected_header: &JsonObject,
    ) -> (r: Result<(), JoseError>)
        ensures
            match old(self)@.message_for(*protected_header) {
                Some(message) => (exists|outcome: Result<Seq<u8>, JoseError>|
                    #[trigger] signer.answers(message, outcome) && (r, final(self)@) == attached(
                        old(self)@,
                        *protected_header,
                        *unprotected_header,
                        outcome,
                    )),
                None => r == Err::<(), JoseError>(JoseError::Encoding(EntryField::Protected))
                    && final(self)@ == old(self)@,
            },
            r is Err ==> final(self)@ == old(self)@,
            final(self)@.payload == old(self)@.payload,
            final(self)@.is_well_formed(),
    {
        proof {
            use_type_invariant(&*self);
        }
        let protected = match encode_protected(protected_header) {
            Some(protected) => protected,
            None => {
                return Err(JoseError::Encoding(EntryField::Protected));
            },
        };
        let message = signing_message(protected.as_str(), self.payload.as_str());
        let outcome = signer.sign(message.as_slice());
        let ghost answer = outcome_view(outcome);
        let r = self.push_outcome(protected, unprotected_header, outcome);
        proof {
            let given = old(self)@.message_for(*protected_header)->0;
            assert(signer.answers(given, answer));
        }
        r
    }

    /// Adds the signature that a signer gave for [`Self::signing_input`] of
    /// `protected_header`, or reports why none is added. This is what
    /// [`Self::add_signature`] does with its signer's answer.
    pub fn attach_signature(
        &mut self,
        protected_header: &JsonObject,
        unprotected_header: &JsonObject,
        outcome: Result<Vec<u8>, JoseError>,
    ) -> (r: Result<(), JoseError>)
        ensures
            (r, final(self)@) == attached(
                old(self)@,
                *protected_header,
                *unprotected_header,
                outcome_view(outcome),
            ),
            final(self)@.is_well_formed(),
    {
        proof {
            use_type_invariant(&*self);
        }
        match encode_protected(protected_header) {
            Some(protected) => self.push_outcome(protected, unprotected_header, outcome),
            None => Err(JoseError::Encoding(EntryField::Protected)),
        }
    }

    /// Writes the document: `payload`, then `signatures` with one object for
    /// each signature, oldest first. Fails where an unprotected header has
    /// no JSON text.
    pub fn serialize_json(&self) -> (r: Result<String, JoseError>)
        ensures
            self@.is_serialized(r),
    {
        let mut entries: Vec<String> = Vec::new();
        let mut i: usize = 0;
        while i < self.signatures.len()
            invariant
                i <= self.signatures.len(),
                entries@.len() == i,
                forall|k: int| 0 <= k < i ==> (#[trigger] self@.signatures[k]).header is Some,
                forall|k: int| 0 <= k < i ==> (#[trigger] entries@[k])@ == self@.signatures[k].text(),
            decreases self.signatures.len() - i,
        {
            let entry = &self.signatures[i];
            let header = match object_text(&entry.header) {
                Some(header) => header,
                None => {
                    assert(self@.signatures[i as int].header is None);
                    return Err(JoseError::Encoding(EntryField::Header));
                },
            };
            entries.push(
                write_entry(entry.protected.as_str(), header.as_str(), entry.signature.as_str()),
            );
            i += 1;
        }
        let text = write_document(self.payload.as_str(), &entries);
        proof {
            assert(texts(entries@) =~= self@.entry_texts());
        }
        Ok(text)
    }
}

} // verus!
