pub mod app_role;
pub mod certificate;
pub mod jwt;
pub mod kubernetes;
pub mod user_pass;

pub use app_role::{AppRole, AppRoleView};
pub use certificate::{Certificate, CertificateView};
pub use jwt::{Jwt, JwtView};
pub use kubernetes::{Kubernetes, KubernetesView};
pub use user_pass::{UserPass, UserPassView};

use crate::utilities::environment::Environment;
use crate::utilities::snapshot::Snapshot;
use crate::utilities::source::{Source, SourceView};
use vstd::prelude::*;

verus! {

/// The username of the username / password login where none is configured.
pub open spec fn default_user() -> Seq<char> {
    "vault-kms-provider"@
}

/// The mathematical model of [`Credentials`].
pub enum CredentialsView {
    AppRole(AppRoleView),
    UserPass(UserPassView),
    Kubernetes(KubernetesView),
    Certificate(CertificateView),
    Token(SourceView),
    Jwt(JwtView),
    Absent,
}

impl CredentialsView {
    /// The one mechanism that an environment selects. The mechanisms are
    /// tried in a fixed order: token, federated identity, username and
    /// password, role-id and secret-id, signed token, certificate. The
    /// first whose variables are set is taken, and none where no
    /// mechanism's variables are set.
    pub open spec fn select(env: Map<Seq<char>, Seq<char>>) -> CredentialsView {
        let auth_mount = Environment::VaultAuthMount.lookup(env);
        if let Some(token) = Environment::VaultToken.lookup_source(env) {
            CredentialsView::Token(token)
        } else if let Some(jwt) = Environment::VaultKubernetesJwt.lookup_source(env) {
            CredentialsView::Kubernetes(
                KubernetesView::new(jwt, Environment::VaultKubernetesRole.lookup(env), auth_mount),
            )
        } else if let Some(password) = Environment::VaultPassword.lookup_source(env) {
            CredentialsView::UserPass(
                UserPassView::new(
                    Environment::VaultUser.lookup_or(env, default_user()),
                    password,
                    auth_mount,
                ),
            )
        } else if Environment::VaultRoleId.lookup(env) is Some
            && Environment::VaultSecretId.lookup_source(env) is Some {
            CredentialsView::AppRole(
                AppRoleView::new(
                    Environment::VaultRoleId.lookup(env)->0,
                    Environment::VaultSecretId.lookup_source(env)->0,
                    auth_mount,
                ),
            )
        } else if let Some(jwt) = Environment::VaultJwt.lookup_source(env) {
            CredentialsView::Jwt(
                JwtView::new(jwt, Environment::VaultJwtRole.lookup(env), auth_mount),
            )
        } else if let Some(name) = Environment::VaultCertificateName.lookup(env) {
            CredentialsView::Certificate(CertificateView::new(name, auth_mount))
        } else {
            CredentialsView::Absent
        }
    }

    /// The secret that the mechanism presents, where it presents one that
    /// has a source.
    pub open spec fn secret(self) -> Option<SourceView> {
        match self {
            CredentialsView::AppRole(role) => Some(role.secret_id),
            CredentialsView::UserPass(user) => Some(user.password),
            CredentialsView::Kubernetes(kubernetes) => Some(kubernetes.jwt),
            CredentialsView::Token(token) => Some(token),
            CredentialsView::Jwt(jwt) => Some(jwt.jwt),
            CredentialsView::Certificate(_) => None,
            CredentialsView::Absent => None,
        }
    }

    /// The file whose rewriting rotates the credential: the path of its
    /// secret, where the secret is kept in a file.
    pub open spec fn rotation_path(self) -> Option<Seq<char>> {
        match self.secret() {
            Some(source) => source.path(),
            None => None,
        }
    }
}

/// Whether the environment asks for a token.
pub open spec fn token_signal(env: Map<Seq<char>, Seq<char>>) -> bool {
    Environment::VaultToken.lookup_source(env) is Some
}

/// Whether the environment asks for a federated-identity login.
pub open spec fn kubernetes_signal(env: Map<Seq<char>, Seq<char>>) -> bool {
    Environment::VaultKubernetesJwt.lookup_source(env) is Some
}

/// Whether the environment asks for a username / password login.
pub open spec fn user_pass_signal(env: Map<Seq<char>, Seq<char>>) -> bool {
    Environment::VaultPassword.lookup_source(env) is Some
}

/// Whether the environment asks for a role-id / secret-id login.
pub open spec fn app_role_signal(env: Map<Seq<char>, Seq<char>>) -> bool {
    Environment::VaultRoleId.lookup(env) is Some && Environment::VaultSecretId.lookup_source(env)
        is Some
}

/// Whether the environment asks for a signed-token login.
pub open spec fn jwt_signal(env: Map<Seq<char>, Seq<char>>) -> bool {
    Environment::VaultJwt.lookup_source(env) is Some
}

/// Whether the environment asks for a certificate login.
pub open spec fn certificate_signal(env: Map<Seq<char>, Seq<char>>) -> bool {
    Environment::VaultCertificateName.lookup(env) is Some
}

/// The selection depends on nothing but what the environment binds: two
/// environments with the same bindings select the same credentials.
pub proof fn lemma_selection_is_deterministic(first: Snapshot, second: Snapshot)
    requires
        first@ == second@,
    ensures
        CredentialsView::select(first@) == CredentialsView::select(second@),
{
}

/// The selection keeps to the order of the mechanisms, whatever else the
/// environment sets: a mechanism is selected exactly where its own
/// variables are set and those of no mechanism before it are.
pub proof fn lemma_selection_respects_priority(env: Map<Seq<char>, Seq<char>>)
    ensures
        CredentialsView::select(env) is Token <==> token_signal(env),
        CredentialsView::select(env) is Kubernetes <==> !token_signal(env) && kubernetes_signal(
            env,
        ),
        CredentialsView::select(env) is UserPass <==> !token_signal(env) && !kubernetes_signal(env)
            && user_pass_signal(env),
        CredentialsView::select(env) is AppRole <==> !token_signal(env) && !kubernetes_signal(env)
            && !user_pass_signal(env) && app_role_signal(env),
        CredentialsView::select(env) is Jwt <==> !token_signal(env) && !kubernetes_signal(env)
            && !user_pass_signal(env) && !app_role_signal(env) && jwt_signal(env),
        CredentialsView::select(env) is Certificate <==> !token_signal(env) && !kubernetes_signal(
            env,
        ) && !user_pass_signal(env) && !app_role_signal(env) && !jwt_signal(env)
            && certificate_signal(env),
        CredentialsView::select(env) is Absent <==> !token_signal(env) && !kubernetes_signal(env)
            && !user_pass_signal(env) && !app_role_signal(env) && !jwt_signal(env)
            && !certificate_signal(env),
{
}

/// Credentials can be rotated through a file exactly where their mechanism
/// presents a secret and that secret is kept in a file; the file is then
/// the one to watch.
pub proof fn lemma_rotation_path_is_the_secret_file(credentials: CredentialsView)
    ensures
        credentials.rotation_path() is Some <==> credentials.secret() is Some
            && credentials.secret()->0 is FilePath,
        credentials.rotation_path() is Some ==> credentials.secret() == Some(
            SourceView::FilePath(credentials.rotation_path()->0),
        ),
{
}

/// The way in which the process proves its identity to the backend: exactly
/// one mechanism, or `Absent` where there is none to authenticate with.
#[derive(Debug, PartialEq)]
pub enum Credentials {
    AppRole(AppRole),
    UserPass(UserPass),
    Kubernetes(Kubernetes),
    Certificate(Certificate),
    Token(Source),
    Jwt(Jwt),
    Absent,
}

impl View for Credentials {
    type V = CredentialsView;

    open spec fn view(&self) -> CredentialsView {
        match self {
            Credentials::AppRole(role) => CredentialsView::AppRole(role@),
            Credentials::UserPass(user) => CredentialsView::UserPass(user@),
            Credentials::Kubernetes(kubernetes) => CredentialsView::Kubernetes(kubernetes@),
            Credentials::Certificate(certificate) => CredentialsView::Certificate(certificate@),
            Credentials::Token(token) => CredentialsView::Token(token@),
            Credentials::Jwt(jwt) => CredentialsView::Jwt(jwt@),
            Credentials::Absent => CredentialsView::Absent,
        }
    }
}

impl Clone for Credentials {
    fn clone(&self) -> (result: Self)
        ensures
            result@ == self@,
    {
        match self {
            Credentials::AppRole(role) => Credentials::AppRole(role.clone()),
            Credentials::UserPass(user) => Credentials::UserPass(user.clone()),
            Credentials::Kubernetes(kubernetes) => Credentials::Kubernetes(kubernetes.clone()),
            Credentials::Certificate(certificate) => Credentials::Certificate(certificate.clone()),
            Credentials::Token(token) => Credentials::Token(token.clone()),
            Credentials::Jwt(jwt) => Credentials::Jwt(jwt.clone()),
            Credentials::Absent => Credentials::Absent,
        }
    }
}

impl Credentials {
    /// Selects the one mechanism that the environment `env` asks for; see
    /// [`CredentialsView::select`] for the order. Never fails: an
    /// environment that sets up no mechanism gives `Credentials::Absent`.
    pub fn from_env(env: &Snapshot) -> (result: Self)
        ensures
            result@ == CredentialsView::select(env@),
    {
        let auth_mount = Environment::VaultAuthMount.get(env);
        if let Some(token) = Environment::VaultToken.source(env) {
            return Credentials::Token(token);
        }
        if let Some(jwt) = Environment::VaultKubernetesJwt.source(env) {
            return Credentials::Kubernetes(
                Kubernetes::new(jwt, Environment::VaultKubernetesRole.get(env), auth_mount),
            );
        }
        if let Some(password) = Environment::VaultPassword.source(env) {
            return Credentials::UserPass(
                UserPass::new(
                    Environment::VaultUser.or(env, "vault-kms-provider"),
                    password,
                    auth_mount,
                ),
            );
        }
        if let Some(role_id) = Environment::VaultRoleId.get(env) {
            if let Some(secret_id) = Environment::VaultSecretId.source(env) {
                return Credentials::AppRole(AppRole::new(role_id, secret_id, auth_mount));
            }
        }
        if let Some(jwt) = Environment::VaultJwt.source(env) {
            return Credentials::Jwt(Jwt::new(jwt, Environment::VaultJwtRole.get(env), auth_mount));
        }
        if let Some(certificate) = Environment::VaultCertificateName.get(env) {
            return Credentials::Certificate(Certificate::new(certificate, auth_mount));
        }
        Credentials::Absent
    }

    /// Returns the secret that the mechanism presents, where it has one
    /// with a source: a certificate login and `Absent` have no such secret.
    pub fn secret(&self) -> (result: Option<&Source>)
        ensures
            result.deep_view() == self@.secret(),
    {
        match self {
            Credentials::AppRole(role) => Some(&role.secret_id),
            Credentials::UserPass(user) => Some(&user.password),
            Credentials::Kubernetes(kubernetes) => Some(&kubernetes.jwt),
            Credentials::Token(token) => Some(token),
            Credentials::Jwt(jwt) => Some(&jwt.jwt),
            Credentials::Certificate(_) => None,
            Credentials::Absent => None,
        }
    }

    /// Returns the path of the file whose rewriting rotates the credential:
    /// present exactly where the mechanism's secret is kept in a file.
    pub fn rotation_path(&self) -> (result: Option<String>)
        ensures
            result.deep_view() == self@.rotation_path(),
    {
        match self.secret() {
            Some(source) => source.path(),
            None => None,
        }
    }
}

} // verus!
