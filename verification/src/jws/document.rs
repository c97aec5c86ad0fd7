//! What a document with several signatures holds, and what adding a
//! signature and serializing mean for it.

use crate::base64url::{base64url_text, encodable_len, is_base64url};
use crate::error::{EntryField, JoseError};
use crate::json::{json_object_text, JsonObject};
use crate::jws::text::{document_text, entry_text, join_with_commas, signing_input};
use vstd::prelude::*;
use vstd::utf8::encode_utf8;

verus! {

/// One signature over the payload, as the document shows it.
pub struct SignatureEntryView {
    /// The base64url text of the protected header's JSON text.
    pub protected: Seq<char>,
    /// The JSON text of the unprotected header, or `None` where it has none.
    pub header: Option<Seq<char>>,
    /// The base64url text of the signature bytes.
    pub signature: Seq<char>,
}

/// A payload and the signatures over it, oldest first.
pub struct JwsMultiSignerView {
    /// The base64url text of the payload bytes.
    pub payload: Seq<char>,
    /// The signatures, in the order in which they were added.
    pub signatures: Seq<SignatureEntryView>,
}

impl SignatureEntryView {
    /// The entry with the two encoded fields and the text of
    /// `unprotected_header`.
    pub open spec fn of(
        protected: Seq<char>,
        unprotected_header: JsonObject,
        signature: Seq<char>,
    ) -> Self {
        SignatureEntryView { protected, header: json_object_text(unprotected_header), signature }
    }

    /// Both encoded fields hold base64url characters only.
    pub open spec fn is_well_formed(self) -> bool {
        is_base64url(self.protected) && is_base64url(self.signature)
    }

    /// The JSON object for this signature. Meant for an entry whose header
    /// has a text.
    pub open spec fn text(self) -> Seq<char>
        recommends
            self.header is Some,
    {
        entry_text(self.protected, self.header->0, self.signature)
    }
}

impl JwsMultiSignerView {
    /// A document with a payload and no signature yet.
    pub open spec fn unsigned(payload: Seq<char>) -> Self {
        JwsMultiSignerView { payload, signatures: Seq::empty() }
    }

    /// This document with `entry` added behind the signatures it has.
    pub open spec fn with_signature(self, entry: SignatureEntryView) -> Self {
        JwsMultiSignerView { payload: self.payload, signatures: self.signatures.push(entry) }
    }

    /// This document with all of `entries` added, one after the other.
    pub open spec fn with_signatures(self, entries: Seq<SignatureEntryView>) -> Self
        decreases entries.len(),
    {
        if entries.len() == 0 {
            self
        } else {
            self.with_signatures(entries.drop_last()).with_signature(entries.last())
        }
    }

    /// The payload and the encoded fields of every signature hold base64url
    /// characters only.
    pub open spec fn is_well_formed(self) -> bool {
        &&& is_base64url(self.payload)
        &&& forall|i: int|
            0 <= i < self.signatures.len() ==> (#[trigger] self.signatures[i]).is_well_formed()
    }

    /// Every unprotected header has a JSON text.
    pub open spec fn has_text(self) -> bool {
        forall|i: int|
            0 <= i < self.signatures.len() ==> (#[trigger] self.signatures[i]).header is Some
    }

    /// The JSON objects of the signatures, in their order.
    pub open spec fn entry_texts(self) -> Seq<Seq<char>> {
        self.signatures.map_values(|entry: SignatureEntryView| entry.text())
    }

    /// The text of the document. Meant for a document in which every
    /// unprotected header has a text.
    pub open spec fn text(self) -> Seq<char>
        recommends
            self.has_text(),
    {
        document_text(self.payload, self.entry_texts())
    }

    /// What serializing gives: the text, or an encoding error about the
    /// unprotected header where one of them has no text.
    pub open spec fn serialized(self) -> Result<Seq<char>, JoseError> {
        if self.has_text() {
            Ok(self.text())
        } else {
            Err(JoseError::Encoding(EntryField::Header))
        }
    }

    /// Whether `result` is what serializing this document gives.
    pub open spec fn is_serialized(self, result: Result<String, JoseError>) -> bool {
        match result {
            Ok(text) => self.serialized() == Ok::<Seq<char>, JoseError>(text@),
            Err(error) => self.serialized() == Err::<Seq<char>, JoseError>(error),
        }
    }

    /// The bytes that a signer is given for `protected_header`, or `None`
    /// where the header cannot be encoded.
    pub open spec fn message_for(self, protected_header: JsonObject) -> Option<Seq<u8>> {
        match protected_field(protected_header) {
            Some(protected) => Some(signing_input(protected, self.payload)),
            None => None,
        }
    }
}

/// The protected field that `header` gives: the base64url text of the UTF-8
/// bytes of its JSON text. `None` where the header has no JSON text, or the
/// text is too long to encode.
pub open spec fn protected_field(header: JsonObject) -> Option<Seq<char>> {
    match json_object_text(header) {
        Some(text) => if encodable_len(encode_utf8(text).len()) {
            Some(base64url_text(encode_utf8(text)))
        } else {
            None
        },
        None => None,
    }
}

/// The signature field that `signature` gives: its base64url text. `None`
/// where the signature is too long to encode.
pub open spec fn signature_field(signature: Seq<u8>) -> Option<Seq<char>> {
    if encodable_len(signature.len()) {
        Some(base64url_text(signature))
    } else {
        None
    }
}

/// What becomes of `before` when a signer has answered with `outcome` for
/// the two headers: the result reported, and the document afterwards.
///
/// A protected header that cannot be encoded comes first, then the signer's
/// own error, then a signature that cannot be encoded; each leaves the
/// document as it was. Otherwise one entry is added behind the others.
pub open spec fn attached(
    before: JwsMultiSignerView,
    protected_header: JsonObject,
    unprotected_header: JsonObject,
    outcome: Result<Seq<u8>, JoseError>,
) -> (Result<(), JoseError>, JwsMultiSignerView) {
    match protected_field(protected_header) {
        None => (Err(JoseError::Encoding(EntryField::Protected)), before),
        Some(protected) => match outcome {
            Err(error) => (Err(error), before),
            Ok(bytes) => match signature_field(bytes) {
                None => (Err(JoseError::Encoding(EntryField::Signature)), before),
                Some(signature) => (
                    Ok(()),
                    before.with_signature(
                        SignatureEntryView::of(protected, unprotected_header, signature),
                    ),
                ),
            },
        },
    }
}

/// A document without signatures is written as its payload and an empty
/// array.
pub proof fn lemma_unsigned_document_text(payload: Seq<char>)
    ensures
        JwsMultiSignerView::unsigned(payload).serialized() == Ok::<Seq<char>, JoseError>(
            "{\"payload\":\""@ + payload + "\",\"signatures\":[]}"@,
        ),
{
    reveal_strlit("\",\"signatures\":[");
    reveal_strlit("]}");
    reveal_strlit("\",\"signatures\":[]}");
    let document = JwsMultiSignerView::unsigned(payload);
    assert(document.entry_texts() =~= Seq::<Seq<char>>::empty());
    assert(document.text() =~= "{\"payload\":\""@ + payload + "\",\"signatures\":[]}"@);
}

/// Signatures added one after the other stand behind those that were there,
/// in the order in which they were added, and so do their objects in the
/// array that is written. The payload stays.
pub proof fn lemma_signatures_keep_order(
    before: JwsMultiSignerView,
    entries: Seq<SignatureEntryView>,
)
    ensures
        before.with_signatures(entries).payload == before.payload,
        before.with_signatures(entries).signatures == before.signatures + entries,
        before.with_signatures(entries).signatures.len() == before.signatures.len()
            + entries.len(),
        before.with_signatures(entries).entry_texts() == before.entry_texts() + entries.map_values(
            |entry: SignatureEntryView| entry.text(),
        ),
    decreases entries.len(),
{
    if entries.len() > 0 {
        lemma_signatures_keep_order(before, entries.drop_last());
        assert((before.signatures + entries.drop_last()).push(entries.last()) =~= before.signatures
            + entries);
    }
}

/// An added signature is written last: the array keeps the text that it
/// had, and the object of the new signature follows it.
pub proof fn lemma_added_signature_is_written_last(
    before: JwsMultiSignerView,
    entry: SignatureEntryView,
)
    ensures
        join_with_commas(before.with_signature(entry).entry_texts()) == if before.signatures.len()
            == 0 {
            entry.text()
        } else {
            join_with_commas(before.entry_texts()) + ","@ + entry.text()
        },
{
    let after = before.with_signature(entry);
    assert(after.entry_texts() =~= before.entry_texts().push(entry.text()));
    crate::jws::text::lemma_join_with_commas_push(before.entry_texts(), entry.text());
}

/// The bytes that a signer is given depend on the payload and the protected
/// header alone: the signatures that a document has do not change them.
pub proof fn lemma_message_ignores_signatures(
    before: JwsMultiSignerView,
    entries: Seq<SignatureEntryView>,
    protected_header: JsonObject,
)
    ensures
        before.with_signatures(entries).message_for(protected_header) == before.message_for(
            protected_header,
        ),
        before.message_for(protected_header) == JwsMultiSignerView::unsigned(
            before.payload,
        ).message_for(protected_header),
{
    lemma_signatures_keep_order(before, entries);
}

/// Serializing the same document twice gives the same result.
pub proof fn lemma_serialize_is_repeatable(
    document: JwsMultiSignerView,
    first: Result<String, JoseError>,
    second: Result<String, JoseError>,
)
    requires
        document.is_serialized(first),
        document.is_serialized(second),
    ensures
        match (first, second) {
            (Ok(a), Ok(b)) => a@ == b@,
            (Err(a), Err(b)) => a == b,
            _ => false,
        },
{
}

} // verus!
