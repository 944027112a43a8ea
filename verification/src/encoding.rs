//! Base64, as the connection URI carries it.

use vstd::prelude::*;
use vstd::utf8::encode_utf8;

verus! {

/// The standard base64 encoding of `data`: the alphabet of RFC 4648 with `+`
/// and `/`, padded with `=`.
pub uninterp spec fn base64_standard(data: Seq<u8>) -> Seq<char>;

/// Whether `c` can occur in standard base64 text.
pub open spec fn is_base64_char(c: char) -> bool {
    ('A' <= c && c <= 'Z') || ('a' <= c && c <= 'z') || ('0' <= c && c <= '9') || c == '+' || c
        == '/' || c == '='
}

/// Whether `text` holds base64 characters only.
pub open spec fn is_base64_text(text: Seq<char>) -> bool {
    forall|i: int| 0 <= i < text.len() ==> is_base64_char(#[trigger] text[i])
}

/// The length of the base64 form of `bytes` bytes: four characters for every
/// three bytes begun.
pub open spec fn encoded_len(bytes: nat) -> nat {
    (4 * ((bytes + 2) / 3)) as nat
}

/// The most bytes that are encoded in one piece.
///
/// The encoded text takes four characters for every three bytes and has to
/// fit into one allocation, also where `usize` has 32 bits.
pub const BASE64_INPUT_LIMIT: usize = 0x5fff_fffd;

/// The base64 form of a text's UTF-8 bytes.
pub open spec fn base64_text(text: Seq<char>) -> Seq<char> {
    base64_standard(encode_utf8(text))
}

/// Calls `Engine::encode` on `base64::engine::general_purpose::STANDARD`.
///
/// Trusted: the result depends on the bytes alone and is named
/// [`base64_standard`]; it has four characters for every three bytes begun,
/// all of them from the standard alphabet or the padding sign. The bound on
/// the input keeps that length within what the crate can allocate.
#[verifier::external_body]
fn encode_standard(data: &[u8]) -> (r: String)
    requires
        data@.len() <= BASE64_INPUT_LIMIT,
    ensures
        r@ == base64_standard(data@),
        r@.len() == encoded_len(data@.len()),
        is_base64_text(r@),
{
    base64::Engine::encode(&base64::engine::general_purpose::STANDARD, data)
}

/// Encodes the UTF-8 bytes of `text` in standard base64.
///
/// Returns `None` where the text has more bytes than
/// [`BASE64_INPUT_LIMIT`].
pub fn encode(text: &str) -> (r: Option<String>)
    ensures
        r is Some <==> encode_utf8(text@).len() <= BASE64_INPUT_LIMIT,
        r matches Some(encoded) ==> {
            &&& encoded@ == base64_text(text@)
            &&& encoded@.len() == encoded_len(encode_utf8(text@).len())
            &&& is_base64_text(encoded@)
        },
{
    let bytes = text.as_bytes();
    if bytes.len() <= BASE64_INPUT_LIMIT {
        Some(encode_standard(bytes))
    } else {
        None
    }
}

} // verus!
