//! Base64 with the URL-safe alphabet and no padding, as the `base64` crate
//! writes it.

use vstd::prelude::*;

verus! {

/// Whether `c` belongs to the URL-safe base64 alphabet.
pub open spec fn is_base64url_char(c: char) -> bool {
    ||| 'A' <= c <= 'Z'
    ||| 'a' <= c <= 'z'
    ||| '0' <= c <= '9'
    ||| c == '-'
    ||| c == '_'
}

/// Whether `text` is made of characters of the URL-safe base64 alphabet only.
pub open spec fn is_base64url(text: Seq<char>) -> bool {
    forall|i: int| 0 <= i < text.len() ==> is_base64url_char(#[trigger] text[i])
}

/// Whether `len` bytes can be encoded on this machine: four characters for
/// each three bytes, and up to three more, must not be more than a string
/// can hold.
pub open spec fn encodable_len(len: nat) -> bool {
    len / 3 * 4 + 3 <= isize::MAX
}

/// The text that `base64::encode_config` gives for `bytes` with
/// `base64::URL_SAFE_NO_PAD`: their base64 text in the URL-safe alphabet,
/// without padding.
pub uninterp spec fn base64url_text(bytes: Seq<u8>) -> Seq<char>;

/// Calls `base64::encode_config` with `base64::URL_SAFE_NO_PAD`.
///
/// Trusted: the returned text depends on the bytes alone and holds only
/// characters of the URL-safe alphabet. The call panics when the encoded
/// length overflows `usize` or is more than a vector can hold, which the
/// precondition rules out.
#[verifier::external_body]
pub(crate) fn encode_config_url_safe_no_pad(bytes: &[u8]) -> (text: String)
    requires
        encodable_len(bytes@.len()),
    ensures
        text@ == base64url_text(bytes@),
        is_base64url(text@),
{
    base64::encode_config(bytes, base64::URL_SAFE_NO_PAD)
}

/// Encodes `bytes`, or returns `None` when they are too many to encode.
pub fn encode(bytes: &[u8]) -> (r: Option<String>)
    ensures
        r is Some <==> encodable_len(bytes@.len()),
        r matches Some(text) ==> text@ == base64url_text(bytes@) && is_base64url(text@),
{
    if bytes.len() / 3 <= (isize::MAX as usize - 3) / 4 {
        Some(encode_config_url_safe_no_pad(bytes))
    } else {
        None
    }
}

/// Base64 text is ASCII.
pub proof fn lemma_base64url_is_ascii(text: Seq<char>)
    requires
        is_base64url(text),
    ensures
        vstd::utf8::is_ascii_chars(text),
{
    assert forall|i: int| 0 <= i < text.len() implies '\0' <= #[trigger] text[i] <= '\u{7f}' by {
        assert(is_base64url_char(text[i]));
    }
}

} // verus!
