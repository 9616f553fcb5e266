use vstd::prelude::*;

verus! {

/// The named values that travel with a ciphertext.
pub type Annotations = Vec<(String, Vec<u8>)>;

/// The request of the status operation: it carries nothing.
#[derive(Debug, Clone, Copy, PartialEq, Eq, Structural)]
pub struct StatusRequest {}

/// The mathematical model of [`StatusResponse`].
pub struct StatusResponseView {
    pub version: Seq<char>,
    pub healthz: Seq<char>,
    pub key_id: Seq<char>,
}

/// The answer of the status operation.
#[derive(Debug, PartialEq)]
pub struct StatusResponse {
    pub version: String,
    pub healthz: String,
    pub key_id: String,
}

impl View for StatusResponse {
    type V = StatusResponseView;

    open spec fn view(&self) -> StatusResponseView {
        StatusResponseView { version: self.version@, healthz: self.healthz@, key_id: self.key_id@ }
    }
}

/// The request of the decrypt operation.
#[derive(Debug, PartialEq)]
pub struct DecryptRequest {
    pub key_id: String,
    pub uid: String,
    pub ciphertext: Vec<u8>,
    pub annotations: Annotations,
}

/// The mathematical model of [`DecryptResponse`].
pub struct DecryptResponseView {
    pub plaintext: Seq<u8>,
}

/// The answer of the decrypt operation.
#[derive(Debug, PartialEq)]
pub struct DecryptResponse {
    pub plaintext: Vec<u8>,
}

impl View for DecryptResponse {
    type V = DecryptResponseView;

    open spec fn view(&self) -> DecryptResponseView {
        DecryptResponseView { plaintext: self.plaintext@ }
    }
}

/// The request of the encrypt operation.
#[derive(Debug, PartialEq)]
pub struct EncryptRequest {
    pub plaintext: Vec<u8>,
    pub uid: String,
}

/// The mathematical model of [`EncryptResponse`].
pub struct EncryptResponseView {
    pub ciphertext: Seq<u8>,
    pub key_id: Seq<char>,
    pub annotations: Seq<(Seq<char>, Seq<u8>)>,
}

/// The answer of the encrypt operation.
#[derive(Debug, PartialEq)]
pub struct EncryptResponse {
    pub ciphertext: Vec<u8>,
    pub key_id: String,
    pub annotations: Annotations,
}

impl View for EncryptResponse {
    type V = EncryptResponseView;

    open spec fn view(&self) -> EncryptResponseView {
        EncryptResponseView {
            ciphertext: self.ciphertext@,
            key_id: self.key_id@,
            annotations: self.annotations.deep_view(),
        }
    }
}

/// The kinds of failure that the service reports to its callers.
#[derive(Debug, Clone, Copy, PartialEq, Eq, Structural)]
pub enum Code {
    Internal,
}

/// The mathematical model of [`Status`].
pub struct StatusView {
    pub code: Code,
    pub message: Seq<char>,
}

impl StatusView {
    /// The internal failure with the given description.
    pub open spec fn internal(message: Seq<char>) -> StatusView {
        StatusView { code: Code::Internal, message }
    }
}

/// A failure as the service reports it to its caller: a code, and a
/// description for a human reader.
#[derive(Debug, PartialEq)]
pub struct Status {
    pub code: Code,
    pub message: String,
}

impl View for Status {
    type V = StatusView;

    open spec fn view(&self) -> StatusView {
        StatusView { code: self.code, message: self.message@ }
    }
}

impl Status {
    /// Makes a failure with the given code and description.
    pub fn new(code: Code, message: String) -> (result: Self)
        ensures
            result@ == (StatusView { code, message: message@ }),
    {
        Status { code, message }
    }

    /// Makes the internal failure with the given description.
    pub fn internal(message: &str) -> (result: Self)
        ensures
            result@ == StatusView::internal(message@),
    {
        Status { code: Code::Internal, message: message.to_owned() }
    }
}

} // verus!
