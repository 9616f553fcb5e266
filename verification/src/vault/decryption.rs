use crate::utilities::encoding::{base64_decoded, bytes_view, decode, text_of};
use vstd::prelude::*;
use vstd::utf8::{decode_utf8, encode_utf8, valid_utf8};

verus! {

/// What the backend answers to a call of its decrypt operation: the
/// plaintext, in base64.
#[derive(Debug, PartialEq)]
pub struct DecryptionResponse {
    pub plaintext: String,
}

/// What is sent to the backend's decrypt operation: the ciphertext, in the
/// backend's own notation.
#[derive(Debug, PartialEq)]
pub struct DecryptionRequest {
    pub ciphertext: String,
}

impl DecryptionRequest {
    /// Makes the request that asks for `data` to be decrypted: it carries
    /// the text that `data` is in UTF-8. Returns nothing where `data` is
    /// not UTF-8, and so no ciphertext that the backend wrote.
    pub fn new(data: &Vec<u8>) -> (result: Option<Self>)
        ensures
            result is Some <==> valid_utf8(data@),
            result is Some ==> result->0.ciphertext@ == decode_utf8(data@),
    {
        match text_of(data.as_slice()) {
            Some(ciphertext) => Some(DecryptionRequest { ciphertext }),
            None => None,
        }
    }
}

impl DecryptionResponse {
    /// Returns the plaintext as bytes, or nothing where what the backend
    /// sent is not base64.
    pub fn decode(&self) -> (result: Option<Vec<u8>>)
        ensures
            bytes_view(result) == base64_decoded(encode_utf8(self.plaintext@)),
    {
        decode(self.plaintext.as_str())
    }
}

} // verus!
