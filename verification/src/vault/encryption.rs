use crate::utilities::encoding::{base64_encoded, encodable, encode};
use vstd::prelude::*;
use vstd::utf8::encode_utf8;

verus! {

/// What the backend answers to a call of its encrypt operation: the
/// ciphertext, in the backend's own notation.
#[derive(Debug, PartialEq)]
pub struct EncryptionResponse {
    pub ciphertext: String,
}

/// What is sent to the backend's encrypt operation: the plaintext, in base64.
#[derive(Debug, PartialEq)]
pub struct EncryptionRequest {
    pub plaintext: String,
}

impl EncryptionRequest {
    /// Makes the request that asks for `data` to be encrypted: it carries
    /// `data` in base64. Returns nothing where `data` is too long for the
    /// length of its encoding to be a `usize`.
    pub fn new(data: &[u8]) -> (result: Option<Self>)
        ensures
            result is Some <==> encodable(data@.len()),
            result is Some ==> result->0.plaintext@ == base64_encoded(data@),
            result is Some ==> crate::utilities::encoding::base64_decoded(
                encode_utf8(result->0.plaintext@),
            ) == Some(data@),
    {
        match encode(data) {
            Some(plaintext) => Some(EncryptionRequest { plaintext }),
            None => None,
        }
    }
}

impl EncryptionResponse {
    /// Returns the ciphertext as the bytes that the caller of the service
    /// gets: the text of the backend, in UTF-8.
    pub fn to_bytes(&self) -> (result: Vec<u8>)
        ensures
            result@ == encode_utf8(self.ciphertext@),
    {
        crate::utilities::encoding::bytes_of(self.ciphertext.as_str())
    }
}

} // verus!
