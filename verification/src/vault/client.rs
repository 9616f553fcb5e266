use crate::configuration::authentication::{
    AppRole, Certificate, Credentials, CredentialsView, Jwt, Kubernetes, UserPass,
};
use crate::utilities::snapshot::Snapshot;
use crate::utilities::source::SourceView;
use crate::vault::decryption::DecryptionResponse;
use crate::vault::encryption::EncryptionResponse;
use crate::vault::keys::{newest, KeyInfo, ReadKeyData};
use crate::vault::transit::TransitPath;
use vstd::prelude::*;

verus! {

/// The mathematical model of [`VaultError`].
pub enum VaultErrorView {
    SourceUnavailable { path: Seq<char> },
    NoCredential,
    Unauthenticated,
    BackendRejected(Seq<char>),
    KeyVersionResolutionFailure,
}

impl VaultErrorView {
    /// The text that describes the failure to the caller of the service.
    pub open spec fn message(self) -> Seq<char> {
        match self {
            VaultErrorView::SourceUnavailable { path } => "Error reading file: "@ + path,
            VaultErrorView::NoCredential => "No token found"@,
            VaultErrorView::Unauthenticated => "No session token has been set"@,
            VaultErrorView::BackendRejected(details) => details,
            VaultErrorView::KeyVersionResolutionFailure => "The key has no usable version"@,
        }
    }
}

/// What can go wrong between the service and its backend.
#[derive(Debug, PartialEq)]
pub enum VaultError {
    /// The file that holds the credential's secret could not be read.
    SourceUnavailable { path: String },
    /// No mechanism to authenticate with has been configured.
    NoCredential,
    /// The client has no session token yet.
    Unauthenticated,
    /// The backend refused a login or an operation, or could not be reached.
    BackendRejected(String),
    /// The backend reported no version of the key that could be told apart
    /// from the others by its age.
    KeyVersionResolutionFailure,
}

impl View for VaultError {
    type V = VaultErrorView;

    open spec fn view(&self) -> VaultErrorView {
        match self {
            VaultError::SourceUnavailable { path } => VaultErrorView::SourceUnavailable {
                path: path@,
            },
            VaultError::NoCredential => VaultErrorView::NoCredential,
            VaultError::Unauthenticated => VaultErrorView::Unauthenticated,
            VaultError::BackendRejected(details) => VaultErrorView::BackendRejected(details@),
            VaultError::KeyVersionResolutionFailure => VaultErrorView::KeyVersionResolutionFailure,
        }
    }
}

impl Clone for VaultError {
    fn clone(&self) -> (result: Self)
        ensures
            result@ == self@,
    {
        match self {
            VaultError::SourceUnavailable { path } => VaultError::SourceUnavailable {
                path: path.clone(),
            },
            VaultError::NoCredential => VaultError::NoCredential,
            VaultError::Unauthenticated => VaultError::Unauthenticated,
            VaultError::BackendRejected(details) => VaultError::BackendRejected(details.clone()),
            VaultError::KeyVersionResolutionFailure => VaultError::KeyVersionResolutionFailure,
        }
    }
}

impl VaultError {
    /// Returns the text that describes the failure to the caller of the service.
    pub fn to_string(&self) -> (result: String)
        ensures
            result@ == self@.message(),
    {
        match self {
            VaultError::SourceUnavailable { path } => "Error reading file: ".to_owned().concat(
                path.as_str(),
            ),
            VaultError::NoCredential => "No token found".to_owned(),
            VaultError::Unauthenticated => "No session token has been set".to_owned(),
            VaultError::BackendRejected(details) => details.clone(),
            VaultError::KeyVersionResolutionFailure => "The key has no usable version".to_owned(),
        }
    }
}

/// What a successful login hands back, as far as the service reads it.
#[derive(Debug, PartialEq)]
pub struct AuthInfo {
    pub client_token: String,
}

/// The mathematical model of [`LoginRequest`].
#[allow(inconsistent_fields)]
pub enum LoginRequestView {
    Kubernetes { mount_path: Seq<char>, role: Seq<char>, jwt: Seq<char> },
    UserPass { mount_path: Seq<char>, username: Seq<char>, password: Seq<char> },
    AppRole { mount_path: Seq<char>, role_id: Seq<char>, secret_id: Seq<char> },
    Jwt { mount_path: Seq<char>, jwt: Seq<char>, role: Option<Seq<char>> },
    Certificate { mount_path: Seq<char>, name: Seq<char> },
}

/// A login to perform at the backend: the mechanism's endpoint, mounted at
/// `mount_path`, with the secret as it reads at this moment.
#[derive(Debug, PartialEq)]
#[allow(inconsistent_fields)]
pub enum LoginRequest {
    Kubernetes { mount_path: String, role: String, jwt: String },
    UserPass { mount_path: String, username: String, password: String },
    AppRole { mount_path: String, role_id: String, secret_id: String },
    Jwt { mount_path: String, jwt: String, role: Option<String> },
    Certificate { mount_path: String, name: String },
}

impl View for LoginRequest {
    type V = LoginRequestView;

    open spec fn view(&self) -> LoginRequestView {
        match self {
            LoginRequest::Kubernetes { mount_path, role, jwt } => LoginRequestView::Kubernetes {
                mount_path: mount_path@,
                role: role@,
                jwt: jwt@,
            },
            LoginRequest::UserPass { mount_path, username, password } => LoginRequestView::UserPass {
                mount_path: mount_path@,
                username: username@,
                password: password@,
            },
            LoginRequest::AppRole { mount_path, role_id, secret_id } => LoginRequestView::AppRole {
                mount_path: mount_path@,
                role_id: role_id@,
                secret_id: secret_id@,
            },
            LoginRequest::Jwt { mount_path, jwt, role } => LoginRequestView::Jwt {
                mount_path: mount_path@,
                jwt: jwt@,
                role: role.deep_view(),
            },
            LoginRequest::Certificate { mount_path, name } => LoginRequestView::Certificate {
                mount_path: mount_path@,
                name: name@,
            },
        }
    }
}

/// The mathematical model of [`AuthenticationStep`].
pub enum AuthenticationStepView {
    Token(Seq<char>),
    Login(LoginRequestView),
}

/// How the session token is to be had: it is at hand, or a login has to
/// be performed for it.
#[derive(Debug, PartialEq)]
pub enum AuthenticationStep {
    Token(String),
    Login(LoginRequest),
}

impl View for AuthenticationStep {
    type V = AuthenticationStepView;

    open spec fn view(&self) -> AuthenticationStepView {
        match self {
            AuthenticationStep::Token(token) => AuthenticationStepView::Token(token@),
            AuthenticationStep::Login(request) => AuthenticationStepView::Login(request@),
        }
    }
}

/// The view of a `Result` whose two sides have views.
pub open spec fn result_view<T: View, E: View>(result: Result<T, E>) -> Result<T::V, E::V> {
    match result {
        Ok(value) => Ok(value@),
        Err(error) => Err(error@),
    }
}

/// What a source resolves to, given the files as they are now: an inline
/// value as it stands, a file's present contents, and a failure for a
/// file that cannot be read.
pub open spec fn resolve(source: SourceView, files: Map<Seq<char>, Seq<char>>) -> Result<
    Seq<char>,
    VaultErrorView,
> {
    match source {
        SourceView::Value(value) => Ok(value),
        SourceView::FilePath(path) => if files.contains_key(path) {
            Ok(files[path])
        } else {
            Err(VaultErrorView::SourceUnavailable { path })
        },
    }
}

/// How the session token is to be had with the credentials `auth`, given
/// the files as they are now.
///
/// A token is taken from its source directly. Every other mechanism
/// resolves its secret and asks for a login with it; a certificate login
/// has no secret to resolve. Without a mechanism there is no token, and a
/// secret that cannot be read fails the attempt.
pub open spec fn authentication(auth: CredentialsView, files: Map<Seq<char>, Seq<char>>) -> Result<
    AuthenticationStepView,
    VaultErrorView,
> {
    match auth {
        CredentialsView::Token(source) => match resolve(source, files) {
            Ok(token) => Ok(AuthenticationStepView::Token(token)),
            Err(error) => Err(error),
        },
        CredentialsView::Kubernetes(credentials) => match resolve(credentials.jwt, files) {
            Ok(jwt) => Ok(
                AuthenticationStepView::Login(
                    LoginRequestView::Kubernetes {
                        mount_path: credentials.mount_path,
                        role: credentials.role,
                        jwt,
                    },
                ),
            ),
            Err(error) => Err(error),
        },
        CredentialsView::UserPass(credentials) => match resolve(credentials.password, files) {
            Ok(password) => Ok(
                AuthenticationStepView::Login(
                    LoginRequestView::UserPass {
                        mount_path: credentials.mount_path,
                        username: credentials.username,
                        password,
                    },
                ),
            ),
            Err(error) => Err(error),
        },
        CredentialsView::AppRole(credentials) => match resolve(credentials.secret_id, files) {
            Ok(secret_id) => Ok(
                AuthenticationStepView::Login(
                    LoginRequestView::AppRole {
                        mount_path: credentials.mount_path,
                        role_id: credentials.role_id,
                        secret_id,
                    },
                ),
            ),
            Err(error) => Err(error),
        },
        CredentialsView::Jwt(credentials) => match resolve(credentials.jwt, files) {
            Ok(jwt) => Ok(
                AuthenticationStepView::Login(
                    LoginRequestView::Jwt {
                        mount_path: credentials.mount_path,
                        jwt,
                        role: credentials.role,
                    },
                ),
            ),
            Err(error) => Err(error),
        },
        CredentialsView::Certificate(credentials) => Ok(
            AuthenticationStepView::Login(
                LoginRequestView::Certificate {
                    mount_path: credentials.mount_path,
                    name: credentials.name,
                },
            ),
        ),
        CredentialsView::Absent => Err(VaultErrorView::NoCredential),
    }
}

} // verus!

verus! {

/// The mathematical model of [`TransitRequest`].
pub struct TransitRequestView {
    pub token: Seq<char>,
    pub mount_path: Seq<char>,
    pub key_name: Seq<char>,
    pub path: TransitPath,
    pub data: Option<Seq<char>>,
}

/// A call to make to the backend's transit engine: the operation `path`
/// on the key `key_name` of the engine mounted at `mount_path`, authorised
/// by the session token `token`, with the payload `data` where the
/// operation takes one.
#[derive(Debug, PartialEq)]
pub struct TransitRequest {
    pub token: String,
    pub mount_path: String,
    pub key_name: String,
    pub path: TransitPath,
    pub data: Option<String>,
}

impl View for TransitRequest {
    type V = TransitRequestView;

    open spec fn view(&self) -> TransitRequestView {
        TransitRequestView {
            token: self.token@,
            mount_path: self.mount_path@,
            key_name: self.key_name@,
            path: self.path,
            data: self.data.deep_view(),
        }
    }
}

/// The mathematical model of [`Client`].
pub struct ClientView {
    pub key_name: Seq<char>,
    pub auth: CredentialsView,
    pub mount_path: Seq<char>,
    pub token: Option<Seq<char>>,
}

impl ClientView {
    /// The call that performs the operation `path` with the payload `data`,
    /// or the failure `Unauthenticated` while there is no session token.
    pub open spec fn request(self, path: TransitPath, data: Option<Seq<char>>) -> Result<
        TransitRequestView,
        VaultErrorView,
    > {
        match self.token {
            Some(token) => Ok(
                TransitRequestView {
                    token,
                    mount_path: self.mount_path,
                    key_name: self.key_name,
                    path,
                    data,
                },
            ),
            None => Err(VaultErrorView::Unauthenticated),
        }
    }

    /// The client after an attempt to authenticate that ended in `outcome`:
    /// a new token replaces the old one, a failure changes nothing.
    pub open spec fn refreshed(self, outcome: Result<Seq<char>, VaultErrorView>) -> ClientView {
        match outcome {
            Ok(token) => ClientView { token: Some(token), ..self },
            Err(_) => self,
        }
    }
}

/// The token that an attempt to log in gives: the one in the backend's
/// answer, or the failure `BackendRejected` with the backend's own words.
pub open spec fn login_outcome(response: Result<Seq<char>, Seq<char>>) -> Result<
    Seq<char>,
    VaultErrorView,
> {
    match response {
        Ok(token) => Ok(token),
        Err(details) => Err(VaultErrorView::BackendRejected(details)),
    }
}

/// The client of the backend: the key it works with, the credentials it
/// authenticates with, and the session token of its last successful
/// authentication.
///
/// The client performs no call itself. It says which call is to be made,
/// and is told how the call ended.
#[derive(Debug)]
pub struct Client {
    key_name: String,
    auth: Credentials,
    mount_path: String,
    token: Option<String>,
}

impl View for Client {
    type V = ClientView;

    closed spec fn view(&self) -> ClientView {
        ClientView {
            key_name: self.key_name@,
            auth: self.auth@,
            mount_path: self.mount_path@,
            token: self.token.deep_view(),
        }
    }
}

impl Client {
    /// Makes the client that `config` describes. It has no session token yet.
    pub fn new(config: &crate::configuration::vault::VaultConfiguration) -> (result: Self)
        ensures
            result@ == (ClientView {
                key_name: config@.transit_key,
                auth: config@.credentials,
                mount_path: config@.mount_path,
                token: None,
            }),
    {
        Client {
            key_name: config.transit_key.clone(),
            auth: config.credentials.clone(),
            mount_path: config.mount_path.clone(),
            token: None,
        }
    }

    /// Returns the credentials that the client authenticates with.
    pub fn credentials(&self) -> (result: &Credentials)
        ensures
            result@ == self@.auth,
    {
        &self.auth
    }

    /// Returns the session token, where the client has one.
    pub fn token(&self) -> (result: Option<String>)
        ensures
            result.deep_view() == self@.token,
    {
        match &self.token {
            Some(token) => Some(token.clone()),
            None => None,
        }
    }

    /// Returns the federated-identity login to perform for `credentials`,
    /// with the identity as it reads now in `files`.
    pub fn kubernetes_authentication(credentials: &Kubernetes, files: &Snapshot) -> (result: Result<
        LoginRequest,
        VaultError,
    >)
        ensures
            result_view(result) == (match resolve(credentials@.jwt, files@) {
                Ok(jwt) => Ok(
                    LoginRequestView::Kubernetes {
                        mount_path: credentials@.mount_path,
                        role: credentials@.role,
                        jwt,
                    },
                ),
                Err(error) => Err(error),
            }),
    {
        match credentials.jwt.value(files) {
            Ok(jwt) => Ok(
                LoginRequest::Kubernetes {
                    mount_path: credentials.mount_path.clone(),
                    role: credentials.role.clone(),
                    jwt,
                },
            ),
            Err(error) => Err(error),
        }
    }

    /// Returns the signed-token login to perform for `credentials`, with
    /// the token as it reads now in `files`.
    pub fn jwt_authentication(credentials: &Jwt, files: &Snapshot) -> (result: Result<
        LoginRequest,
        VaultError,
    >)
        ensures
            result_view(result) == (match resolve(credentials@.jwt, files@) {
                Ok(jwt) => Ok(
                    LoginRequestView::Jwt {
                        mount_path: credentials@.mount_path,
                        jwt,
                        role: credentials@.role,
                    },
                ),
                Err(error) => Err(error),
            }),
    {
        match credentials.jwt.value(files) {
            Ok(jwt) => Ok(
                LoginRequest::Jwt {
                    mount_path: credentials.mount_path.clone(),
                    jwt,
                    role: match &credentials.role {
                        Some(role) => Some(role.clone()),
                        None => None,
                    },
                },
            ),
            Err(error) => Err(error),
        }
    }

    /// Returns the certificate login to perform for `credentials`.
    pub fn cert_authentication(credentials: &Certificate) -> (result: LoginRequest)
        ensures
            result@ == (LoginRequestView::Certificate {
                mount_path: credentials@.mount_path,
                name: credentials@.name,
            }),
    {
        LoginRequest::Certificate {
            mount_path: credentials.mount_path.clone(),
            name: credentials.name.clone(),
        }
    }

    /// Returns the username / password login to perform for `credentials`,
    /// with the password as it reads now in `files`.
    pub fn user_pass_authentication(credentials: &UserPass, files: &Snapshot) -> (result: Result<
        LoginRequest,
        VaultError,
    >)
        ensures
            result_view(result) == (match resolve(credentials@.password, files@) {
                Ok(password) => Ok(
                    LoginRequestView::UserPass {
                        mount_path: credentials@.mount_path,
                        username: credentials@.username,
                        password,
                    },
                ),
                Err(error) => Err(error),
            }),
    {
        match credentials.password.value(files) {
            Ok(password) => Ok(
                LoginRequest::UserPass {
                    mount_path: credentials.mount_path.clone(),
                    username: credentials.username.clone(),
                    password,
                },
            ),
            Err(error) => Err(error),
        }
    }

    /// Returns the role-id / secret-id login to perform for `credentials`,
    /// with the secret id as it reads now in `files`.
    pub fn app_role_authentication(credentials: &AppRole, files: &Snapshot) -> (result: Result<
        LoginRequest,
        VaultError,
    >)
        ensures
            result_view(result) == (match resolve(credentials@.secret_id, files@) {
                Ok(secret_id) => Ok(
                    LoginRequestView::AppRole {
                        mount_path: credentials@.mount_path,
                        role_id: credentials@.role_id,
                        secret_id,
                    },
                ),
                Err(error) => Err(error),
            }),
    {
        match credentials.secret_id.value(files) {
            Ok(secret_id) => Ok(
                LoginRequest::AppRole {
                    mount_path: credentials.mount_path.clone(),
                    role_id: credentials.role_id.clone(),
                    secret_id,
                },
            ),
            Err(error) => Err(error),
        }
    }

    /// Says how the session token is to be had, given the files as they are
    /// now: see [`authentication`]. A token is returned as it is; for every
    /// other mechanism the login to perform is returned, whose answer goes
    /// to [`Client::login_token`].
    pub fn get_token(&self, files: &Snapshot) -> (result: Result<AuthenticationStep, VaultError>)
        ensures
            result_view(result) == authentication(self@.auth, files@),
    {
        match &self.auth {
            Credentials::Token(token) => match token.value(files) {
                Ok(token) => Ok(AuthenticationStep::Token(token)),
                Err(error) => Err(error),
            },
            Credentials::Kubernetes(credentials) => match Self::kubernetes_authentication(
                credentials,
                files,
            ) {
                Ok(request) => Ok(AuthenticationStep::Login(request)),
                Err(error) => Err(error),
            },
            Credentials::UserPass(credentials) => match Self::user_pass_authentication(
                credentials,
                files,
            ) {
                Ok(request) => Ok(AuthenticationStep::Login(request)),
                Err(error) => Err(error),
            },
            Credentials::AppRole(credentials) => match Self::app_role_authentication(
                credentials,
                files,
            ) {
                Ok(request) => Ok(AuthenticationStep::Login(request)),
                Err(error) => Err(error),
            },
            Credentials::Jwt(credentials) => match Self::jwt_authentication(credentials, files) {
                Ok(request) => Ok(AuthenticationStep::Login(request)),
                Err(error) => Err(error),
            },
            Credentials::Certificate(credentials) => Ok(
                AuthenticationStep::Login(Self::cert_authentication(credentials)),
            ),
            Credentials::Absent => Err(VaultError::NoCredential),
        }
    }

    /// Returns the session token that a login gave: the client token of the
    /// backend's answer. A login that the backend refused, or that did not
    /// reach it, fails with `BackendRejected` and the reason given.
    pub fn login_token(response: Result<AuthInfo, String>) -> (result: Result<String, VaultError>)
        ensures
            result_view(result) == login_outcome(
                match response {
                    Ok(info) => Ok(info.client_token@),
                    Err(details) => Err(details@),
                },
            ),
    {
        match response {
            Ok(info) => Ok(info.client_token),
            Err(details) => Err(VaultError::BackendRejected(details)),
        }
    }

    /// Takes in the outcome of an attempt to authenticate. A token
    /// replaces the session token in place. A failure leaves the session
    /// token as it was and is handed back, so that a rotation that failed
    /// does not end a session that still works.
    pub fn refresh_token(&mut self, outcome: Result<String, VaultError>) -> (result: Result<
        (),
        VaultError,
    >)
        ensures
            final(self)@ == old(self)@.refreshed(result_view(outcome)),
            match outcome {
                Ok(_) => result is Ok,
                Err(error) => result is Err && result->Err_0@ == error@,
            },
        no_unwind
    {
        match outcome {
            Ok(token) => {
                self.token = Some(token);
                Ok(())
            },
            Err(error) => Err(error),
        }
    }

    /// Replaces the session token by `token`.
    pub fn set_token(&mut self, token: &str)
        ensures
            final(self)@ == (ClientView { token: Some(token@), ..old(self)@ }),
    {
        self.token = Some(token.to_owned());
    }

    /// Returns the call that performs `path` with the payload `data`, or
    /// fails with `Unauthenticated` while the client has no session token.
    fn request(&self, path: TransitPath, data: Option<String>) -> (result: Result<
        TransitRequest,
        VaultError,
    >)
        ensures
            result_view(result) == self@.request(path, data.deep_view()),
    {
        match &self.token {
            Some(token) => Ok(
                TransitRequest {
                    token: token.clone(),
                    mount_path: self.mount_path.clone(),
                    key_name: self.key_name.clone(),
                    path,
                    data,
                },
            ),
            None => Err(VaultError::Unauthenticated),
        }
    }

    /// Returns the call that reads the metadata of the configured key. It
    /// does not authenticate: without a session token it fails with
    /// `Unauthenticated`.
    pub fn request_key(&self) -> (result: Result<TransitRequest, VaultError>)
        ensures
            result_view(result) == self@.request(TransitPath::Keys, None),
    {
        self.request(TransitPath::Keys, None)
    }

    /// Returns the call that encrypts `data`, a plaintext in base64, with
    /// the configured key. It does not authenticate: without a session
    /// token it fails with `Unauthenticated`.
    pub fn request_encryption(&self, data: &str) -> (result: Result<TransitRequest, VaultError>)
        ensures
            result_view(result) == self@.request(TransitPath::Encrypt, Some(data@)),
    {
        self.request(TransitPath::Encrypt, Some(data.to_owned()))
    }

    /// Takes in the answer to the call of `request_key`, and returns the
    /// version of the key that the backend encrypts with: the newest of
    /// those reported. A call that failed gives `BackendRejected` with the
    /// reason given, and a report without a usable version
    /// `KeyVersionResolutionFailure`.
    pub fn key_info(response: Result<ReadKeyData, String>) -> (result: Result<KeyInfo, VaultError>)
        ensures
            result_view(result) == (match response {
                Ok(data) => newest(data@),
                Err(details) => Err(VaultErrorView::BackendRejected(details@)),
            }),
    {
        match response {
            Ok(data) => KeyInfo::from_key_data(&data),
            Err(details) => Err(VaultError::BackendRejected(details)),
        }
    }

    /// Takes in the answer to the call of `request_encryption`, and
    /// returns the ciphertext in the backend's own notation. A call that
    /// failed gives `BackendRejected` with the reason given.
    pub fn ciphertext(response: Result<EncryptionResponse, String>) -> (result: Result<
        String,
        VaultError,
    >)
        ensures
            result_view(result) == (match response {
                Ok(answer) => Ok(answer.ciphertext@),
                Err(details) => Err(VaultErrorView::BackendRejected(details@)),
            }),
    {
        match response {
            Ok(answer) => Ok(answer.ciphertext),
            Err(details) => Err(VaultError::BackendRejected(details)),
        }
    }

    /// Takes in the answer to the call of `request_decryption`, and
    /// returns the plaintext in base64. A call that failed gives
    /// `BackendRejected` with the reason given.
    pub fn plaintext(response: Result<DecryptionResponse, String>) -> (result: Result<
        String,
        VaultError,
    >)
        ensures
            result_view(result) == (match response {
                Ok(answer) => Ok(answer.plaintext@),
                Err(details) => Err(VaultErrorView::BackendRejected(details@)),
            }),
    {
        match response {
            Ok(answer) => Ok(answer.plaintext),
            Err(details) => Err(VaultError::BackendRejected(details)),
        }
    }

    /// Returns the call that decrypts `data`, a ciphertext as the backend
    /// wrote it, with the configured key. It does not authenticate:
    /// without a session token it fails with `Unauthenticated`.
    pub fn request_decryption(&self, data: &str) -> (result: Result<TransitRequest, VaultError>)
        ensures
            result_view(result) == self@.request(TransitPath::Decrypt, Some(data@)),
    {
        self.request(TransitPath::Decrypt, Some(data.to_owned()))
    }
}

} // verus!

verus! {

impl crate::utilities::watcher::Refresh for Client {
    open spec fn session(&self) -> Option<Seq<char>> {
        self@.token
    }

    fn refresh_token(&mut self, outcome: Result<String, VaultError>) -> (result: Result<
        (),
        VaultError,
    >) {
        Client::refresh_token(self, outcome)
    }
}

/// The secret that an authentication presents: the token itself, or what
/// the login sends to prove the identity. A certificate login sends none.
pub open spec fn presented_secret(step: AuthenticationStepView) -> Option<Seq<char>> {
    match step {
        AuthenticationStepView::Token(token) => Some(token),
        AuthenticationStepView::Login(request) => match request {
            LoginRequestView::Kubernetes { jwt, .. } => Some(jwt),
            LoginRequestView::UserPass { password, .. } => Some(password),
            LoginRequestView::AppRole { secret_id, .. } => Some(secret_id),
            LoginRequestView::Jwt { jwt, .. } => Some(jwt),
            LoginRequestView::Certificate { .. } => None,
        },
    }
}

/// A rotation takes effect. Whatever mechanism keeps its secret in a file:
/// once new contents are written to that file, the next authentication
/// succeeds in resolving the secret and presents the new contents, and for
/// a token the new contents are the session token that a refresh installs.
pub proof fn lemma_rotation_takes_effect(
    client: ClientView,
    files: Map<Seq<char>, Seq<char>>,
    path: Seq<char>,
    contents: Seq<char>,
)
    requires
        client.auth.rotation_path() == Some(path),
    ensures
        authentication(client.auth, files.insert(path, contents)) is Ok,
        presented_secret(authentication(client.auth, files.insert(path, contents))->Ok_0) == Some(
            contents,
        ),
        client.auth is Token ==> client.refreshed(
            match authentication(client.auth, files.insert(path, contents)) {
                Ok(step) => Ok(presented_secret(step)->0),
                Err(error) => Err(error),
            },
        ).token == Some(contents),
{
}

/// Two rewritings of the credential's file with different contents lead to
/// different authentications: nothing of an earlier reading is kept.
pub proof fn lemma_rotation_is_observed(
    auth: CredentialsView,
    files: Map<Seq<char>, Seq<char>>,
    path: Seq<char>,
    before: Seq<char>,
    after: Seq<char>,
)
    requires
        auth.rotation_path() == Some(path),
        before != after,
    ensures
        authentication(auth, files.insert(path, before)) != authentication(
            auth,
            files.insert(path, after),
        ),
{
    lemma_rotation_takes_effect(
        ClientView { key_name: Seq::empty(), auth, mount_path: Seq::empty(), token: None },
        files,
        path,
        before,
    );
    lemma_rotation_takes_effect(
        ClientView { key_name: Seq::empty(), auth, mount_path: Seq::empty(), token: None },
        files,
        path,
        after,
    );
}

/// An inline secret does not depend on the files: resolving it gives the
/// same value whatever the files hold.
pub proof fn lemma_inline_value_is_stable(
    value: Seq<char>,
    first: Map<Seq<char>, Seq<char>>,
    second: Map<Seq<char>, Seq<char>>,
)
    ensures
        resolve(SourceView::Value(value), first) == Ok::<Seq<char>, VaultErrorView>(value),
        resolve(SourceView::Value(value), first) == resolve(SourceView::Value(value), second),
{
}

} // verus!
