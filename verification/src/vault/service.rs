use crate::utilities::encoding::{base64_decoded, base64_encoded, encodable};
use crate::utilities::snapshot::Snapshot;
use crate::vault::api::{
    DecryptRequest, DecryptResponse, DecryptResponseView, EncryptRequest, EncryptResponse,
    EncryptResponseView, Status, StatusResponse, StatusResponseView, StatusView,
};
use crate::vault::client::{
    authentication, result_view, AuthenticationStep, Client, ClientView,
    TransitRequest, TransitRequestView, VaultError, VaultErrorView,
};
use crate::vault::decryption::{DecryptionRequest, DecryptionResponse};
use crate::vault::encryption::{EncryptionRequest, EncryptionResponse};
use crate::vault::keys::{newest, ReadKeyData, ReadKeyDataView};
use crate::vault::transit::TransitPath;
use vstd::prelude::*;
use vstd::utf8::{decode_utf8, encode_utf8, valid_utf8};

verus! {

/// The health marker of a status answer.
pub open spec fn okay_response() -> Seq<char> {
    "ok"@
}

/// The plaintext that is encrypted once at startup, to prove that the key
/// can be used.
pub open spec fn sentinel() -> Seq<char> {
    "initialize"@
}

/// What a caller is told that asks before the service is ready.
pub open spec fn not_ready_message() -> Seq<char> {
    "The service has not been initialized"@
}

/// What a caller is told whose plaintext is too long to be encoded.
pub open spec fn too_long_message() -> Seq<char> {
    "The plaintext is too long"@
}

/// What a caller is told whose ciphertext is not text.
pub open spec fn malformed_ciphertext_message() -> Seq<char> {
    "The ciphertext is not valid UTF-8"@
}

/// What a caller is told where the backend's plaintext is not base64.
pub open spec fn malformed_plaintext_message() -> Seq<char> {
    "The plaintext is not valid base64"@
}

/// What precedes the backend's words where the startup encryption failed.
pub open spec fn failed_to_initialize() -> Seq<char> {
    "Failed to initialize: "@
}

/// The failure that the service reports for a failure of the backend: an
/// internal one, with the backend's message.
pub open spec fn to_status(error: VaultErrorView) -> StatusView {
    StatusView::internal(error.message())
}

/// Where the service stands on its way to serving requests.
#[derive(Debug, Clone, Copy, PartialEq, Eq, Structural)]
pub enum ServerState {
    /// Nothing has been done yet.
    Uninitialized,
    /// A session token is being obtained.
    Authenticating,
    /// The session token is being tried on an encryption.
    Verifying,
    /// Both have succeeded: requests are served.
    Ready,
    /// One of them has failed: requests are never served.
    Failed,
}

/// The mathematical model of [`VaultKmsServer`].
pub struct VaultKmsServerView {
    pub client: ClientView,
    pub state: ServerState,
}

impl VaultKmsServerView {
    /// Whether requests are served.
    pub open spec fn accepts_requests(self) -> bool {
        self.state == ServerState::Ready
    }

    /// What holds of the service at all times: it has a session token from
    /// the moment on at which it tries one.
    pub open spec fn wf(self) -> bool {
        (self.state == ServerState::Verifying || self.state == ServerState::Ready)
            ==> self.client.token is Some
    }

    /// The service as it is made around a client: nothing has been done yet.
    pub open spec fn new(client: ClientView) -> VaultKmsServerView {
        VaultKmsServerView { client, state: ServerState::Uninitialized }
    }

    /// The service after it has been asked to start up, given the files as
    /// they are then: it waits for its first session token where there is
    /// a way to have one, and has failed for good where there is none.
    pub open spec fn initialize(self, files: Map<Seq<char>, Seq<char>>) -> VaultKmsServerView {
        VaultKmsServerView {
            client: self.client,
            state: if authentication(self.client.auth, files) is Ok {
                ServerState::Authenticating
            } else {
                ServerState::Failed
            },
        }
    }

    /// The service after its first authentication has ended in `outcome`:
    /// with a token it holds the session and tries it, and without one it
    /// has failed for good.
    pub open spec fn authenticated(
        self,
        outcome: Result<Seq<char>, VaultErrorView>,
    ) -> VaultKmsServerView {
        VaultKmsServerView {
            client: self.client.refreshed(outcome),
            state: if outcome is Ok {
                ServerState::Verifying
            } else {
                ServerState::Failed
            },
        }
    }

    /// The service after its startup encryption has ended: it is ready
    /// where the backend has encrypted, and has failed for good where it
    /// has not.
    pub open spec fn verified(self, encrypted: bool) -> VaultKmsServerView {
        VaultKmsServerView {
            client: self.client,
            state: if encrypted {
                ServerState::Ready
            } else {
                ServerState::Failed
            },
        }
    }

    /// The service after an authentication that a rotation asked for has
    /// ended in `outcome`: where it stands does not change.
    pub open spec fn refresh(self, outcome: Result<Seq<char>, VaultErrorView>) -> VaultKmsServerView {
        VaultKmsServerView { client: self.client.refreshed(outcome), state: self.state }
    }

    /// The call that tries a first session: the encryption of the fixed
    /// plaintext.
    pub open spec fn canary(self) -> Result<TransitRequestView, VaultErrorView> {
        self.client.request(TransitPath::Encrypt, Some(base64_encoded(encode_utf8(sentinel()))))
    }

    /// The call that the status operation starts with.
    pub open spec fn status(self) -> Result<TransitRequestView, StatusView> {
        if !self.accepts_requests() {
            Err(StatusView::internal(not_ready_message()))
        } else {
            match self.client.request(TransitPath::Keys, None) {
                Ok(request) => Ok(request),
                Err(error) => Err(to_status(error)),
            }
        }
    }

    /// The call that the encrypt operation starts with.
    pub open spec fn encrypt(self, plaintext: Seq<u8>) -> Result<TransitRequestView, StatusView> {
        if !self.accepts_requests() {
            Err(StatusView::internal(not_ready_message()))
        } else if !encodable(plaintext.len()) {
            Err(StatusView::internal(too_long_message()))
        } else {
            match self.client.request(TransitPath::Encrypt, Some(base64_encoded(plaintext))) {
                Ok(request) => Ok(request),
                Err(error) => Err(to_status(error)),
            }
        }
    }

    /// The call that the decrypt operation starts with.
    pub open spec fn decrypt(self, ciphertext: Seq<u8>) -> Result<TransitRequestView, StatusView> {
        if !self.accepts_requests() {
            Err(StatusView::internal(not_ready_message()))
        } else if !valid_utf8(ciphertext) {
            Err(StatusView::internal(malformed_ciphertext_message()))
        } else {
            match self.client.request(TransitPath::Decrypt, Some(decode_utf8(ciphertext))) {
                Ok(request) => Ok(request),
                Err(error) => Err(to_status(error)),
            }
        }
    }
}

/// The answer of the status operation, given the backend's answer to the
/// call that reads the key.
pub open spec fn status_answer(key: Result<ReadKeyDataView, Seq<char>>) -> Result<
    StatusResponseView,
    StatusView,
> {
    match key {
        Ok(data) => match newest(data) {
            Ok(info) => Ok(
                StatusResponseView {
                    version: info.version,
                    healthz: okay_response(),
                    key_id: info.id,
                },
            ),
            Err(error) => Err(to_status(error)),
        },
        Err(details) => Err(StatusView::internal(details)),
    }
}

/// The answer of the encrypt operation, given the ciphertext that the
/// backend made and its answer to the call that reads the key.
pub open spec fn encrypt_answer(ciphertext: Seq<char>, key: Result<ReadKeyDataView, Seq<char>>) -> Result<
    EncryptResponseView,
    StatusView,
> {
    match key {
        Ok(data) => match newest(data) {
            Ok(info) => Ok(
                EncryptResponseView {
                    ciphertext: encode_utf8(ciphertext),
                    key_id: info.id,
                    annotations: Seq::empty(),
                },
            ),
            Err(error) => Err(to_status(error)),
        },
        Err(details) => Err(StatusView::internal(details)),
    }
}

/// The answer of the decrypt operation, given the backend's answer to the
/// call that decrypts.
pub open spec fn decrypt_answer(plaintext: Result<Seq<char>, Seq<char>>) -> Result<
    DecryptResponseView,
    StatusView,
> {
    match plaintext {
        Ok(encoded) => match base64_decoded(encode_utf8(encoded)) {
            Some(plaintext) => Ok(DecryptResponseView { plaintext }),
            None => Err(StatusView::internal(malformed_plaintext_message())),
        },
        Err(details) => Err(StatusView::internal(details)),
    }
}

/// Whether a call to the backend carries a plaintext: its payload is a
/// text in base64 that decodes to the plaintext.
pub open spec fn carries(request: TransitRequestView, plaintext: Seq<u8>) -> bool {
    request.data is Some && base64_decoded(encode_utf8(request.data->0)) == Some(plaintext)
}

/// The view of a backend's answer that reports a key.
pub open spec fn key_view(key: Result<ReadKeyData, String>) -> Result<ReadKeyDataView, Seq<char>> {
    match key {
        Ok(data) => Ok(data@),
        Err(details) => Err(details@),
    }
}

impl Status {
    /// Returns the failure that the service reports for a failure of the
    /// backend: an internal one, with the backend's message.
    pub fn from_error(error: &VaultError) -> (result: Self)
        ensures
            result@ == to_status(error@),
    {
        Status { code: crate::vault::api::Code::Internal, message: error.to_string() }
    }
}

/// The service with its three operations, and the steps that it goes
/// through before it serves them.
///
/// The service calls nothing itself. Each operation is split at the calls
/// to the backend: one function says which call to make, the next takes
/// the backend's answer.
#[derive(Debug)]
pub struct VaultKmsServer {
    client: Client,
    state: ServerState,
}

impl View for VaultKmsServer {
    type V = VaultKmsServerView;

    closed spec fn view(&self) -> VaultKmsServerView {
        VaultKmsServerView { client: self.client@, state: self.state }
    }
}

impl VaultKmsServer {
    /// What holds of every service: see [`VaultKmsServerView::wf`].
    #[verifier::type_invariant]
    spec fn well_formed(self) -> bool {
        self@.wf()
    }

    /// Makes the service around `client`. Nothing has been done yet.
    pub fn new(client: Client) -> (result: Self)
        ensures
            result@ == VaultKmsServerView::new(client@),
            result@.wf(),
    {
        VaultKmsServer { client, state: ServerState::Uninitialized }
    }

    /// Returns where the service stands on its way to serving requests.
    pub fn state(&self) -> (result: ServerState)
        ensures
            result == self@.state,
            self@.wf(),
    {
        proof {
            use_type_invariant(self);
        }
        self.state
    }

    /// Returns the client of the backend.
    pub fn client(&self) -> (result: &Client)
        ensures
            result@ == self@.client,
    {
        &self.client
    }

    /// Starts the service up: says how the first session token is to be
    /// had, given the files as they are now, and waits for it in the state
    /// `Authenticating`. Where there is no way to have one (no mechanism,
    /// or a secret that cannot be read), the startup has failed for good.
    pub fn initialize(&mut self, files: &Snapshot) -> (result: Result<AuthenticationStep, VaultError>)
        requires
            old(self)@.state == ServerState::Uninitialized,
        ensures
            result_view(result) == authentication(old(self)@.client.auth, files@),
            final(self)@ == old(self)@.initialize(files@),
            final(self)@.wf(),
    {
        let result = self.client.get_token(files);
        self.state = match &result {
            Ok(_) => ServerState::Authenticating,
            Err(_) => ServerState::Failed,
        };
        result
    }

    /// Takes in the outcome of the first authentication. A token becomes
    /// the session token, and the call is returned that tries it: the
    /// encryption of a fixed plaintext, waited for in the state
    /// `Verifying`. A failure is handed back, and the startup has failed
    /// for good.
    pub fn authenticated(&mut self, outcome: Result<String, VaultError>) -> (result: Result<
        TransitRequest,
        VaultError,
    >)
        requires
            old(self)@.state == ServerState::Authenticating,
        ensures
            final(self)@ == old(self)@.authenticated(result_view(outcome)),
            final(self)@.wf(),
            match outcome {
                Ok(_) => result is Ok && result_view(result) == final(self)@.canary(),
                Err(error) => result is Err && result->Err_0@ == error@,
            },
    {
        match self.client.refresh_token(outcome) {
            Ok(()) => {
                let canary = sentinel_plaintext();
                self.state = ServerState::Verifying;
                self.client.request_encryption(canary.as_str())
            },
            Err(error) => {
                self.state = ServerState::Failed;
                Err(error)
            },
        }
    }

    /// Takes in the outcome of the startup encryption. Where the backend
    /// has encrypted, the service is `Ready` and serves requests from now
    /// on. Where it has not, the startup has failed for good, and the
    /// failure says so with the backend's words.
    pub fn verified(&mut self, outcome: Result<EncryptionResponse, String>) -> (result: Result<
        (),
        VaultError,
    >)
        requires
            old(self)@.state == ServerState::Verifying,
        ensures
            final(self)@ == old(self)@.verified(outcome is Ok),
            final(self)@.wf(),
            match outcome {
                Ok(_) => result is Ok,
                Err(details) => {
                    &&& result is Err
                    &&& result->Err_0@ == VaultErrorView::BackendRejected(
                        failed_to_initialize() + details@,
                    )
                },
            },
    {
        proof {
            use_type_invariant(&*self);
        }
        match outcome {
            Ok(_) => {
                self.state = ServerState::Ready;
                Ok(())
            },
            Err(details) => {
                self.state = ServerState::Failed;
                Err(
                    VaultError::BackendRejected(
                        "Failed to initialize: ".to_owned().concat(details.as_str()),
                    ),
                )
            },
        }
    }

    /// Takes in the outcome of an authentication that a rotation of the
    /// credential asked for. A token replaces the session token; a failure
    /// leaves the session token as it was and is handed back. Where the
    /// service stands does not change.
    pub fn refresh(&mut self, outcome: Result<String, VaultError>) -> (result: Result<
        (),
        VaultError,
    >)
        ensures
            final(self)@ == old(self)@.refresh(result_view(outcome)),
            final(self)@.wf(),
            match outcome {
                Ok(_) => result is Ok,
                Err(error) => result is Err && result->Err_0@ == error@,
            },
    {
        proof {
            use_type_invariant(&*self);
        }
        self.client.refresh_token(outcome)
    }

    /// Starts the status operation: returns the call that reads the key.
    /// Before the service is ready it fails instead.
    pub fn status(&self) -> (result: Result<TransitRequest, Status>)
        ensures
            result_view(result) == self@.status(),
    {
        if !matches!(self.state, ServerState::Ready) {
            return Err(Status::internal("The service has not been initialized"));
        }
        match self.client.request_key() {
            Ok(request) => Ok(request),
            Err(error) => Err(Status::from_error(&error)),
        }
    }

    /// Ends the status operation: takes in the backend's answer to the
    /// call that reads the key, and returns the newest version of the key
    /// with the health marker `ok`. A failure of the backend is reported
    /// as an internal failure with the backend's message.
    pub fn status_response(key: Result<ReadKeyData, String>) -> (result: Result<
        StatusResponse,
        Status,
    >)
        ensures
            result_view(result) == status_answer(key_view(key)),
    {
        match Client::key_info(key) {
            Ok(info) => Ok(
                StatusResponse { version: info.version, key_id: info.id, healthz: "ok".to_owned() },
            ),
            Err(error) => Err(Status::from_error(&error)),
        }
    }

    /// Starts the encrypt operation: returns the call that encrypts the
    /// plaintext of `request`, which it carries in base64. Before the
    /// service is ready it fails instead, and so it does for a plaintext
    /// too long to encode.
    pub fn encrypt(&self, request: &EncryptRequest) -> (result: Result<TransitRequest, Status>)
        ensures
            result_view(result) == self@.encrypt(request.plaintext@),
            result is Ok ==> carries(result->Ok_0@, request.plaintext@),
    {
        if !matches!(self.state, ServerState::Ready) {
            return Err(Status::internal("The service has not been initialized"));
        }
        match EncryptionRequest::new(request.plaintext.as_slice()) {
            Some(encoded) => match self.client.request_encryption(encoded.plaintext.as_str()) {
                Ok(request) => Ok(request),
                Err(error) => Err(Status::from_error(&error)),
            },
            None => Err(Status::internal("The plaintext is too long")),
        }
    }

    /// Goes on with the encrypt operation: takes in the backend's answer
    /// to the call that encrypts. Where the backend has encrypted, the
    /// call that reads the key is returned, for the version to report. A
    /// failure of the backend ends the operation with an internal failure
    /// with the backend's message.
    pub fn encrypted(&self, response: &Result<EncryptionResponse, String>) -> (result: Result<
        TransitRequest,
        Status,
    >)
        ensures
            result_view(result) == (match response {
                Ok(_) => self@.status(),
                Err(details) => Err(StatusView::internal(details@)),
            }),
    {
        match response {
            Ok(_) => self.status(),
            Err(details) => Err(Status::internal(details.as_str())),
        }
    }

    /// Ends the encrypt operation: takes in the ciphertext that the
    /// backend made and its answer to the call that reads the key, and
    /// returns the ciphertext as UTF-8 bytes with the identifier of the
    /// newest version of the key and no annotations. A failure of the
    /// backend is reported as an internal failure with the backend's
    /// message.
    pub fn encrypt_response(ciphertext: &EncryptionResponse, key: Result<ReadKeyData, String>) -> (result:
        Result<EncryptResponse, Status>)
        ensures
            result_view(result) == encrypt_answer(ciphertext.ciphertext@, key_view(key)),
    {
        match Client::key_info(key) {
            Ok(info) => {
                let response = EncryptResponse {
                    key_id: info.id,
                    ciphertext: ciphertext.to_bytes(),
                    annotations: Vec::new(),
                };
                assert(response.annotations.deep_view() =~= Seq::empty());
                Ok(response)
            },
            Err(error) => Err(Status::from_error(&error)),
        }
    }

    /// Starts the decrypt operation: returns the call that decrypts the
    /// ciphertext of `request`, read as the text that the backend wrote.
    /// Before the service is ready it fails instead, and so it does for a
    /// ciphertext that is not UTF-8.
    pub fn decrypt(&self, request: &DecryptRequest) -> (result: Result<TransitRequest, Status>)
        ensures
            result_view(result) == self@.decrypt(request.ciphertext@),
    {
        if !matches!(self.state, ServerState::Ready) {
            return Err(Status::internal("The service has not been initialized"));
        }
        match DecryptionRequest::new(&request.ciphertext) {
            Some(encrypted) => match self.client.request_decryption(encrypted.ciphertext.as_str()) {
                Ok(request) => Ok(request),
                Err(error) => Err(Status::from_error(&error)),
            },
            None => Err(Status::internal("The ciphertext is not valid UTF-8")),
        }
    }

    /// Ends the decrypt operation: takes in the backend's answer to the
    /// call that decrypts, and returns the plaintext that it holds in
    /// base64. A failure of the backend is reported as an internal failure
    /// with the backend's message, and so is a plaintext that is not base64.
    pub fn decrypt_response(response: Result<DecryptionResponse, String>) -> (result: Result<
        DecryptResponse,
        Status,
    >)
        ensures
            result_view(result) == decrypt_answer(
                match response {
                    Ok(answer) => Ok(answer.plaintext@),
                    Err(details) => Err(details@),
                },
            ),
    {
        match response {
            Ok(answer) => match answer.decode() {
                Some(plaintext) => Ok(DecryptResponse { plaintext }),
                None => Err(Status::internal("The plaintext is not valid base64")),
            },
            Err(details) => Err(Status::internal(details.as_str())),
        }
    }
}

impl crate::utilities::watcher::Refresh for VaultKmsServer {
    open spec fn session(&self) -> Option<Seq<char>> {
        self@.client.token
    }

    fn refresh_token(&mut self, outcome: Result<String, VaultError>) -> (result: Result<
        (),
        VaultError,
    >) {
        self.refresh(outcome)
    }
}

/// What was encrypted is decrypted to itself, for every plaintext, the
/// empty one and one that is no text included.
///
/// Let the encrypt operation send a call for `plaintext`, which carries
/// it, as `VaultKmsServer::encrypt` ensures of every call it returns. Let
/// the backend answer with any ciphertext, and let the operation end with
/// the answer `encrypted`. Then the decrypt operation, given the bytes of
/// `encrypted`, asks the backend to decrypt that very ciphertext. And
/// where the backend answers with the text that it was sent to encrypt,
/// the decrypt operation ends with `plaintext`.
pub proof fn lemma_round_trip(
    server: VaultKmsServerView,
    plaintext: Seq<u8>,
    sent: TransitRequestView,
    ciphertext: Seq<char>,
    key: Result<ReadKeyDataView, Seq<char>>,
    encrypted: EncryptResponseView,
)
    requires
        server.encrypt(plaintext) == Ok::<TransitRequestView, StatusView>(sent),
        carries(sent, plaintext),
        encrypt_answer(ciphertext, key) == Ok::<EncryptResponseView, StatusView>(encrypted),
    ensures
        server.decrypt(encrypted.ciphertext) is Ok,
        server.decrypt(encrypted.ciphertext)->Ok_0.path == TransitPath::Decrypt,
        server.decrypt(encrypted.ciphertext)->Ok_0.data == Some(ciphertext),
        decrypt_answer(Ok(sent.data->0)) == Ok::<DecryptResponseView, StatusView>(
            DecryptResponseView { plaintext },
        ),
{
    crate::utilities::encoding::lemma_text_round_trip(ciphertext);
}

/// A malformed ciphertext is refused, and nothing else happens: the
/// decrypt operation fails for bytes that are not UTF-8 without a call to
/// the backend, and it fails where the backend's plaintext is not base64.
pub proof fn lemma_malformed_ciphertext_is_refused(
    server: VaultKmsServerView,
    ciphertext: Seq<u8>,
    plaintext: Seq<char>,
)
    ensures
        !valid_utf8(ciphertext) ==> server.decrypt(ciphertext) is Err,
        base64_decoded(encode_utf8(plaintext)) is None ==> decrypt_answer(Ok(plaintext)) is Err,
{
}

/// The service becomes ready in one way alone: a session token is had, and
/// the encryption that tries it succeeds. Whatever else happens on the
/// way, the startup has failed.
pub proof fn lemma_ready_needs_both_steps(
    client: ClientView,
    files: Map<Seq<char>, Seq<char>>,
    token: Result<Seq<char>, VaultErrorView>,
    encrypted: bool,
)
    ensures
        VaultKmsServerView::new(client).state == ServerState::Uninitialized,
        VaultKmsServerView::new(client).initialize(files).state == ServerState::Authenticating
            <==> authentication(client.auth, files) is Ok,
        VaultKmsServerView::new(client).initialize(files).authenticated(token).state
            == ServerState::Verifying <==> token is Ok,
        VaultKmsServerView::new(client).initialize(files).authenticated(token).verified(
            encrypted,
        ).accepts_requests() <==> encrypted,
        !(authentication(client.auth, files) is Ok) ==> VaultKmsServerView::new(client).initialize(
            files,
        ).state == ServerState::Failed,
        !(token is Ok) ==> VaultKmsServerView::new(client).initialize(files).authenticated(
            token,
        ).state == ServerState::Failed,
        !encrypted ==> VaultKmsServerView::new(client).initialize(files).authenticated(
            token,
        ).verified(encrypted).state == ServerState::Failed,
{
}

/// A startup that has failed never serves: a rotation of the credential
/// does not revive it, and each request to it fails.
pub proof fn lemma_failed_startup_never_serves(
    server: VaultKmsServerView,
    outcome: Result<Seq<char>, VaultErrorView>,
    payload: Seq<u8>,
)
    requires
        server.state == ServerState::Failed,
    ensures
        server.refresh(outcome).state == ServerState::Failed,
        !server.refresh(outcome).accepts_requests(),
        server.refresh(outcome).status() is Err,
        server.refresh(outcome).encrypt(payload) is Err,
        server.refresh(outcome).decrypt(payload) is Err,
{
}

/// A rotation never costs a running service its session: whether the new
/// authentication succeeds or fails, the service is ready as before and
/// has a session token, the new one where there is one and the old one
/// where there is none.
pub proof fn lemma_rotation_keeps_the_service_running(
    server: VaultKmsServerView,
    outcome: Result<Seq<char>, VaultErrorView>,
)
    requires
        server.wf(),
        server.accepts_requests(),
    ensures
        server.refresh(outcome).wf(),
        server.refresh(outcome).accepts_requests(),
        server.refresh(outcome).client.token == (match outcome {
            Ok(token) => Some(token),
            Err(_) => server.client.token,
        }),
        server.refresh(outcome).status() is Ok,
{
}

/// A startup that has not succeeded serves nothing: in every state but
/// `Ready` each operation fails before any call to the backend is made.
pub proof fn lemma_only_ready_serves(server: VaultKmsServerView, payload: Seq<u8>)
    requires
        !server.accepts_requests(),
    ensures
        server.status() is Err,
        server.encrypt(payload) is Err,
        server.decrypt(payload) is Err,
{
}

/// A service that is ready has a session: its status operation always
/// finds a session token to make its call with.
pub proof fn lemma_ready_is_authenticated(server: VaultKmsServerView)
    requires
        server.wf(),
        server.accepts_requests(),
    ensures
        server.client.token is Some,
        server.status() is Ok,
        server.status()->Ok_0.token == server.client.token->0,
{
}

/// Returns the plaintext of the startup encryption, in base64.
fn sentinel_plaintext() -> (result: String)
    ensures
        result@ == base64_encoded(encode_utf8(sentinel())),
{
    let text = "initialize";
    proof {
        reveal_strlit("initialize");
        vstd::string::is_ascii_spec_bytes(text);
        assert(vstd::utf8::is_ascii_chars(text@));
        assert(encode_utf8(text@).len() == 10);
    }
    match EncryptionRequest::new(text.as_bytes()) {
        Some(request) => request.plaintext,
        None => String::new(),
    }
}

} // verus!
