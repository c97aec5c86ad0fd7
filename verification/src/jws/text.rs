//! The text of a document with several signatures, and of the message that
//! each signature is made over: functions from strings to strings.

use crate::base64url::{is_base64url, is_base64url_char, lemma_base64url_is_ascii};
use vstd::prelude::*;
use vstd::utf8::{encode_utf8, is_ascii_chars_encode_utf8};

verus! {

/// The bytes that get signed: the protected field, a period and the payload,
/// as UTF-8.
pub open spec fn signing_input(protected: Seq<char>, payload: Seq<char>) -> Seq<u8> {
    encode_utf8(protected + seq!['.'] + payload)
}

/// The JSON object for one signature: `protected`, `header` and `signature`,
/// in this order. The two encoded fields are written between quotes as they
/// are, the header's JSON text stands as it is.
pub open spec fn entry_text(protected: Seq<char>, header: Seq<char>, signature: Seq<char>) -> Seq<
    char,
> {
    "{\"protected\":\""@ + protected + "\",\"header\":"@ + header + ",\"signature\":\""@
        + signature + "\"}"@
}

/// Whether `c` stands for itself inside a JSON string: it is no quote, no
/// backslash and no control character.
pub open spec fn is_plain_in_json_string(c: char) -> bool {
    c != '"' && c != '\\' && c >= ' '
}

/// `items` one after the other, with a comma between neighbours.
pub open spec fn join_with_commas(items: Seq<Seq<char>>) -> Seq<char>
    decreases items.len(),
{
    if items.len() == 0 {
        Seq::empty()
    } else if items.len() == 1 {
        items[0]
    } else {
        join_with_commas(items.drop_last()) + ","@ + items.last()
    }
}

/// The document: an object with `payload`, written between quotes as it is,
/// and then `signatures`, the array of `entries` in their order.
pub open spec fn document_text(payload: Seq<char>, entries: Seq<Seq<char>>) -> Seq<char> {
    "{\"payload\":\""@ + payload + "\",\"signatures\":["@ + join_with_commas(entries) + "]}"@
}

/// The texts that `entries` hold.
pub open spec fn texts(entries: Seq<String>) -> Seq<Seq<char>> {
    entries.map_values(|entry: String| entry@)
}

/// Writes out the bytes to sign for a protected field and a payload.
pub fn signing_message(protected: &str, payload: &str) -> (message: Vec<u8>)
    ensures
        message@ == signing_input(protected@, payload@),
{
    let mut text = String::from_str(protected);
    text.append(".");
    text.append(payload);
    proof {
        reveal_strlit(".");
        assert(text@ =~= protected@ + seq!['.'] + payload@);
    }
    text.as_str().as_bytes_vec()
}

/// Writes the JSON object for one signature.
pub fn write_entry(protected: &str, header: &str, signature: &str) -> (text: String)
    ensures
        text@ == entry_text(protected@, header@, signature@),
{
    let mut text = String::from_str("{\"protected\":\"");
    text.append(protected);
    text.append("\",\"header\":");
    text.append(header);
    text.append(",\"signature\":\"");
    text.append(signature);
    text.append("\"}");
    text
}

/// Writes the document for a payload and the objects of its signatures.
pub fn write_document(payload: &str, entries: &Vec<String>) -> (text: String)
    ensures
        text@ == document_text(payload@, texts(entries@)),
{
    let mut text = String::from_str("{\"payload\":\"");
    text.append(payload);
    text.append("\",\"signatures\":[");
    let ghost head = text@;
    let mut i: usize = 0;
    while i < entries.len()
        invariant
            i <= entries.len(),
            text@ == head + join_with_commas(texts(entries@).take(i as int)),
        decreases entries.len() - i,
    {
        if i > 0 {
            text.append(",");
        }
        text.append(entries[i].as_str());
        proof {
            let before = texts(entries@).take(i as int);
            let now = texts(entries@).take(i + 1);
            assert(now.drop_last() =~= before);
        }
        i += 1;
    }
    text.append("]}");
    proof {
        assert(texts(entries@).take(i as int) =~= texts(entries@));
    }
    text
}

/// For base64url fields the bytes to sign are the characters of the
/// protected field, a period and the characters of the payload, one ASCII
/// byte each.
pub proof fn lemma_signing_input_is_ascii(protected: Seq<char>, payload: Seq<char>)
    requires
        is_base64url(protected),
        is_base64url(payload),
    ensures
        signing_input(protected, payload) == protected.map_values(|c: char| c as u8) + seq![0x2eu8]
            + payload.map_values(|c: char| c as u8),
{
    let text = protected + seq!['.'] + payload;
    lemma_base64url_is_ascii(protected);
    lemma_base64url_is_ascii(payload);
    is_ascii_chars_encode_utf8(text);
    assert(signing_input(protected, payload) =~= protected.map_values(|c: char| c as u8)
        + seq![0x2eu8] + payload.map_values(|c: char| c as u8));
}

/// A base64url text can be written between quotes as it is: none of its
/// characters needs an escape in a JSON string.
pub proof fn lemma_base64url_needs_no_escape(text: Seq<char>)
    requires
        is_base64url(text),
    ensures
        forall|k: int| 0 <= k < text.len() ==> is_plain_in_json_string(#[trigger] text[k]),
{
    assert forall|k: int| 0 <= k < text.len() implies is_plain_in_json_string(
        #[trigger] text[k],
    ) by {
        assert(is_base64url_char(text[k]));
    }
}

/// An item added to a list is written last: the text of the list stays, and
/// the new item follows it.
pub proof fn lemma_join_with_commas_push(items: Seq<Seq<char>>, item: Seq<char>)
    ensures
        join_with_commas(items.push(item)) == if items.len() == 0 {
            item
        } else {
            join_with_commas(items) + ","@ + item
        },
{
    assert(items.push(item).drop_last() =~= items);
}

} // verus!
