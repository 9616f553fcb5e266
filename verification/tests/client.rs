use vault_kms_provider::configuration::authentication::{
    AppRole, Certificate, Credentials, Jwt, Kubernetes, UserPass,
};
use vault_kms_provider::configuration::vault::VaultConfiguration;
use vault_kms_provider::utilities::snapshot::Snapshot;
use vault_kms_provider::utilities::source::Source;
use vault_kms_provider::vault::client::{
    AuthInfo, AuthenticationStep, Client, LoginRequest, TransitRequest, VaultError,
};
use vault_kms_provider::vault::decryption::DecryptionResponse;
use vault_kms_provider::vault::encryption::EncryptionResponse;
use vault_kms_provider::vault::keys::{KeyInfo, ReadKeyData};
use vault_kms_provider::vault::transit::TransitPath;

fn client_with(credentials: Credentials) -> Client {
    Client::new(&VaultConfiguration {
        address: "https://localhost:8400".to_string(),
        transit_key: "vault-kms-provider".to_string(),
        mount_path: "transit".to_string(),
        credentials,
    })
}

fn login(credentials: Credentials, files: &Snapshot) -> LoginRequest {
    match client_with(credentials).get_token(files) {
        Ok(AuthenticationStep::Login(request)) => request,
        other => panic!("expected a login, got {:?}", other),
    }
}

fn granted(token: &str) -> Result<AuthInfo, String> {
    Ok(AuthInfo {
        client_token: token.to_string(),
    })
}

#[test]
fn login_with_username_and_password() {
    let request = login(
        Credentials::UserPass(UserPass {
            username: "vault-kms-provider".to_string(),
            password: Source::Value("password".to_string()),
            mount_path: "userpass".to_string(),
        }),
        &Snapshot::new(),
    );
    assert_eq!(
        request,
        LoginRequest::UserPass {
            mount_path: "userpass".to_string(),
            username: "vault-kms-provider".to_string(),
            password: "password".to_string(),
        }
    );
    assert!(Client::login_token(granted("s.token")).is_ok());
}

#[test]
fn login_with_app_role() {
    let mut files = Snapshot::new();
    files.set("./test_files/secret_id", "secret");
    let request = login(
        Credentials::AppRole(AppRole::new(
            "role".to_string(),
            Source::FilePath("./test_files/secret_id".to_string()),
            None,
        )),
        &files,
    );
    assert_eq!(
        request,
        LoginRequest::AppRole {
            mount_path: "approle".to_string(),
            role_id: "role".to_string(),
            secret_id: "secret".to_string(),
        }
    );
    assert!(Client::login_token(granted("s.token")).is_ok());
}

#[test]
fn login_with_jwt() {
    let jwt = "header.payload.signature";
    let request = login(
        Credentials::Jwt(Jwt::new(
            Source::Value(jwt.to_string()),
            Some("vault-kms-provider".to_string()),
            None,
        )),
        &Snapshot::new(),
    );
    assert_eq!(
        request,
        LoginRequest::Jwt {
            mount_path: "jwt".to_string(),
            jwt: jwt.to_string(),
            role: Some("vault-kms-provider".to_string()),
        }
    );
    assert!(Client::login_token(granted("s.token")).is_ok());
}

#[test]
fn login_with_certificate() {
    let request = login(
        Credentials::Certificate(Certificate::new("vault-kms-provider".to_string(), None)),
        &Snapshot::new(),
    );
    assert_eq!(
        request,
        LoginRequest::Certificate {
            mount_path: "cert".to_string(),
            name: "vault-kms-provider".to_string(),
        }
    );
    assert!(Client::login_token(granted("s.token")).is_ok());
}

#[test]
fn login_with_kubernetes() {
    let mut files = Snapshot::new();
    files.set("/var/run/secrets/token", "identity");
    let request = login(
        Credentials::Kubernetes(Kubernetes::new(
            Source::FilePath("/var/run/secrets/token".to_string()),
            None,
            Some("cluster".to_string()),
        )),
        &files,
    );
    assert_eq!(
        request,
        LoginRequest::Kubernetes {
            mount_path: "cluster".to_string(),
            role: "vault-kms-provider".to_string(),
            jwt: "identity".to_string(),
        }
    );
}

#[test]
fn a_token_is_taken_without_a_login() {
    let client = client_with(Credentials::Token(Source::Value("validtoken".to_string())));
    assert_eq!(
        client.get_token(&Snapshot::new()),
        Ok(AuthenticationStep::Token("validtoken".to_string()))
    );
}

#[test]
fn without_credentials_there_is_no_token() {
    let client = client_with(Credentials::Absent);
    assert_eq!(
        client.get_token(&Snapshot::new()),
        Err(VaultError::NoCredential)
    );
}

#[test]
fn a_secret_that_cannot_be_read_fails_the_authentication() {
    let missing = || Source::FilePath("/missing".to_string());
    let unavailable = Err(VaultError::SourceUnavailable {
        path: "/missing".to_string(),
    });
    let files = Snapshot::new();
    for credentials in [
        Credentials::Token(missing()),
        Credentials::Kubernetes(Kubernetes::new(missing(), None, None)),
        Credentials::UserPass(UserPass::new("user".to_string(), missing(), None)),
        Credentials::AppRole(AppRole::new("role".to_string(), missing(), None)),
        Credentials::Jwt(Jwt::new(missing(), None, None)),
    ] {
        assert_eq!(client_with(credentials).get_token(&files), unavailable);
    }
}

#[test]
fn a_refused_login_is_reported_with_the_reason() {
    assert_eq!(
        Client::login_token(Err("permission denied".to_string())),
        Err(VaultError::BackendRejected("permission denied".to_string()))
    );
    assert_eq!(
        Client::login_token(granted("s.token")),
        Ok("s.token".to_string())
    );
}

#[test]
fn a_rewritten_file_changes_the_token() {
    let mut client = client_with(Credentials::Token(Source::FilePath("/token".to_string())));
    let mut files = Snapshot::new();
    files.set("/token", "first");
    let first = match client.get_token(&files) {
        Ok(AuthenticationStep::Token(token)) => token,
        other => panic!("expected a token, got {:?}", other),
    };
    assert_eq!(client.refresh_token(Ok(first)), Ok(()));
    assert_eq!(client.token(), Some("first".to_string()));

    files.set("/token", "second");
    let second = match client.get_token(&files) {
        Ok(AuthenticationStep::Token(token)) => token,
        other => panic!("expected a token, got {:?}", other),
    };
    assert_eq!(client.refresh_token(Ok(second)), Ok(()));
    assert_eq!(client.token(), Some("second".to_string()));
}

#[test]
fn a_rewritten_file_changes_the_secret_of_every_login() {
    let file = || Source::FilePath("/secret".to_string());
    let mut files = Snapshot::new();
    files.set("/secret", "old");
    let mut rotated = Snapshot::new();
    rotated.set("/secret", "new");
    assert_eq!(
        login(
            Credentials::Kubernetes(Kubernetes::new(file(), None, None)),
            &rotated
        ),
        LoginRequest::Kubernetes {
            mount_path: "kubernetes".to_string(),
            role: "vault-kms-provider".to_string(),
            jwt: "new".to_string(),
        }
    );
    assert_eq!(
        login(
            Credentials::UserPass(UserPass::new("user".to_string(), file(), None)),
            &rotated
        ),
        LoginRequest::UserPass {
            mount_path: "userpass".to_string(),
            username: "user".to_string(),
            password: "new".to_string(),
        }
    );
    assert_eq!(
        login(
            Credentials::AppRole(AppRole::new("role".to_string(), file(), None)),
            &rotated
        ),
        LoginRequest::AppRole {
            mount_path: "approle".to_string(),
            role_id: "role".to_string(),
            secret_id: "new".to_string(),
        }
    );
    assert_eq!(
        login(Credentials::Jwt(Jwt::new(file(), None, None)), &rotated),
        LoginRequest::Jwt {
            mount_path: "jwt".to_string(),
            jwt: "new".to_string(),
            role: None,
        }
    );
    assert_ne!(
        login(Credentials::Jwt(Jwt::new(file(), None, None)), &files),
        login(Credentials::Jwt(Jwt::new(file(), None, None)), &rotated)
    );
}

#[test]
fn a_failed_refresh_keeps_the_session() {
    let mut client = client_with(Credentials::Token(Source::Value("token".to_string())));
    assert_eq!(client.token(), None);
    assert_eq!(client.refresh_token(Ok("first".to_string())), Ok(()));
    let failure = VaultError::BackendRejected("connection refused".to_string());
    assert_eq!(
        client.refresh_token(Err(failure.clone())),
        Err(failure)
    );
    assert_eq!(client.token(), Some("first".to_string()));
    client.set_token("second");
    assert_eq!(client.token(), Some("second".to_string()));
}

#[test]
fn transit_calls_need_a_session() {
    let client = client_with(Credentials::Token(Source::Value("token".to_string())));
    assert_eq!(client.request_key(), Err(VaultError::Unauthenticated));
    assert_eq!(
        client.request_encryption("aGVsbG8="),
        Err(VaultError::Unauthenticated)
    );
    assert_eq!(
        client.request_decryption("vault:v1:abc"),
        Err(VaultError::Unauthenticated)
    );
}

#[test]
fn transit_calls_carry_the_session_and_the_key() {
    let mut client = client_with(Credentials::Token(Source::Value("token".to_string())));
    client.set_token("s.session");
    let call = |path: TransitPath, data: Option<&str>| TransitRequest {
        token: "s.session".to_string(),
        mount_path: "transit".to_string(),
        key_name: "vault-kms-provider".to_string(),
        path,
        data: data.map(|text| text.to_string()),
    };
    assert_eq!(client.request_key(), Ok(call(TransitPath::Keys, None)));
    assert_eq!(
        client.request_encryption("aGVsbG8="),
        Ok(call(TransitPath::Encrypt, Some("aGVsbG8=")))
    );
    assert_eq!(
        client.request_decryption("vault:v1:abc"),
        Ok(call(TransitPath::Decrypt, Some("vault:v1:abc")))
    );
}

#[test]
fn answers_of_the_backend_are_taken_in() {
    assert_eq!(
        Client::key_info(Ok(ReadKeyData::Symmetric(vec![
            ("1".to_string(), 100),
            ("2".to_string(), 101)
        ]))),
        Ok(KeyInfo {
            id: "101".to_string(),
            version: "2".to_string()
        })
    );
    assert_eq!(
        Client::key_info(Err("not found".to_string())),
        Err(VaultError::BackendRejected("not found".to_string()))
    );
    assert_eq!(
        Client::key_info(Ok(ReadKeyData::Symmetric(Vec::new()))),
        Err(VaultError::KeyVersionResolutionFailure)
    );
    assert_eq!(
        Client::ciphertext(Ok(EncryptionResponse {
            ciphertext: "vault:v1:abc".to_string()
        })),
        Ok("vault:v1:abc".to_string())
    );
    assert_eq!(
        Client::ciphertext(Err("sealed".to_string())),
        Err(VaultError::BackendRejected("sealed".to_string()))
    );
    assert_eq!(
        Client::plaintext(Ok(DecryptionResponse {
            plaintext: "aGVsbG8=".to_string()
        })),
        Ok("aGVsbG8=".to_string())
    );
    assert_eq!(
        Client::plaintext(Err("sealed".to_string())),
        Err(VaultError::BackendRejected("sealed".to_string()))
    );
}

#[test]
fn failures_describe_themselves() {
    assert_eq!(
        VaultError::SourceUnavailable {
            path: "/token".to_string()
        }
        .to_string(),
        "Error reading file: /token"
    );
    assert_eq!(VaultError::NoCredential.to_string(), "No token found");
    assert_eq!(
        VaultError::Unauthenticated.to_string(),
        "No session token has been set"
    );
    assert_eq!(
        VaultError::BackendRejected("denied".to_string()).to_string(),
        "denied"
    );
    assert_eq!(
        VaultError::KeyVersionResolutionFailure.to_string(),
        "The key has no usable version"
    );
    assert_eq!(TransitPath::Encrypt.to_string(), "encrypt");
    assert_eq!(TransitPath::Decrypt.to_string(), "decrypt");
    assert_eq!(TransitPath::Keys.to_string(), "keys");
}
