use base64::prelude::{Engine, BASE64_STANDARD};
use vstd::prelude::*;
use vstd::utf8::{decode_utf8, encode_utf8, valid_utf8};

verus! {

/// The text that the `base64` crate's standard engine makes of some bytes.
pub uninterp spec fn base64_encoded(data: Seq<u8>) -> Seq<char>;

/// The bytes that the `base64` crate's standard engine reads out of a text
/// given as bytes, or nothing where it rejects the text.
pub uninterp spec fn base64_decoded(text: Seq<u8>) -> Option<Seq<u8>>;

/// The bytes that are there, where there are any.
pub open spec fn bytes_view(bytes: Option<Vec<u8>>) -> Option<Seq<u8>> {
    match bytes {
        Some(bytes) => Some(bytes@),
        None => None,
    }
}

/// Whether a run of `len` bytes is short enough for its encoding's length
/// to be a `usize`.
pub open spec fn encodable(len: nat) -> bool {
    len / 3 * 4 + 4 <= usize::MAX
}

/// Calls `Engine::encode` on `base64`'s `BASE64_STANDARD`. The contract
/// names the result, and claims the one property of the codec that the
/// library rests on: decoding what was encoded gives the bytes back. The
/// call panics where the encoded length overflows, which `requires` rules out.
#[verifier::external_body]
fn standard_encode(data: &[u8]) -> (result: String)
    requires
        encodable(data@.len()),
    ensures
        result@ == base64_encoded(data@),
        base64_decoded(encode_utf8(result@)) == Some(data@),
{
    BASE64_STANDARD.encode(data)
}

/// Calls `Engine::decode` on `base64`'s `BASE64_STANDARD`. The contract
/// only names the result.
#[verifier::external_body]
fn standard_decode(text: &[u8]) -> (result: Option<Vec<u8>>)
    ensures
        bytes_view(result) == base64_decoded(text@),
{
    match BASE64_STANDARD.decode(text) {
        Ok(data) => Some(data),
        Err(_) => None,
    }
}

/// Calls `String::from_utf8`: the text that the bytes encode, or nothing
/// where they are not UTF-8.
#[verifier::external_body]
fn string_from_utf8(bytes: Vec<u8>) -> (result: Option<String>)
    ensures
        result.deep_view() == (if valid_utf8(bytes@) {
            Some(decode_utf8(bytes@))
        } else {
            None
        }),
{
    match String::from_utf8(bytes) {
        Ok(text) => Some(text),
        Err(_) => None,
    }
}

/// Encodes `data` in standard base64, or returns nothing where `data` is
/// too long for its encoding's length to be a `usize`.
pub fn encode(data: &[u8]) -> (result: Option<String>)
    ensures
        result.deep_view() == (if encodable(data@.len()) {
            Some(base64_encoded(data@))
        } else {
            None
        }),
        result is Some ==> base64_decoded(encode_utf8(result->0@)) == Some(data@),
{
    if data.len() / 3 <= (usize::MAX - 4) / 4 {
        Some(standard_encode(data))
    } else {
        None
    }
}

/// Decodes a text in standard base64, or returns nothing where the text is
/// not valid base64.
pub fn decode(text: &str) -> (result: Option<Vec<u8>>)
    ensures
        bytes_view(result) == base64_decoded(encode_utf8(text@)),
{
    standard_decode(text.as_bytes())
}

/// Reads bytes as UTF-8 text, or returns nothing where they are not UTF-8.
pub fn text_of(bytes: &[u8]) -> (result: Option<String>)
    ensures
        result.deep_view() == (if valid_utf8(bytes@) {
            Some(decode_utf8(bytes@))
        } else {
            None
        }),
{
    string_from_utf8(vstd::slice::slice_to_vec(bytes))
}

/// Returns the UTF-8 bytes of a text.
pub fn bytes_of(text: &str) -> (result: Vec<u8>)
    ensures
        result@ == encode_utf8(text@),
{
    text.as_bytes_vec()
}

/// A text survives being written out as UTF-8 and read back.
pub proof fn lemma_text_round_trip(text: Seq<char>)
    ensures
        valid_utf8(encode_utf8(text)),
        decode_utf8(encode_utf8(text)) == text,
{
    vstd::utf8::encode_utf8_valid_utf8(text);
    vstd::utf8::encode_utf8_decode_utf8(text);
}

} // verus!
