use vault_kms_provider::configuration::authentication::{
    AppRole, Certificate, Credentials, Jwt, Kubernetes, UserPass,
};
use vault_kms_provider::configuration::health::HealthCheckConfiguration;
use vault_kms_provider::configuration::logging::LoggingConfiguration;
use vault_kms_provider::configuration::socket::SocketConfiguration;
use vault_kms_provider::configuration::tls::TlsConfiguration;
use vault_kms_provider::configuration::vault::VaultConfiguration;
use vault_kms_provider::configuration::ServerConfiguration;
use vault_kms_provider::utilities::logging::Level;
use vault_kms_provider::utilities::snapshot::Snapshot;
use vault_kms_provider::utilities::source::Source;

const DEFAULT_JWT_AUTH_MOUNT: &str = "jwt";
const DEFAULT_KUBERNETES_AUTH_MOUNT: &str = "kubernetes";
const DEFAULT_HEALTH_ENDPOINT: &str = "0.0.0.0:8080";
const DEFAULT_LOG_FORMAT: &str = "compact";
const DEFAULT_SOCKET_PATH: &str = "./sockets/vault-kms-provider.sock";
const DEFAULT_SOCKET_PERMISSIONS: &str = "666";
const DEFAULT_VAULT_ADDRESS: &str = "https://vault.vault.svc.cluster.local:8200";
const DEFAULT_VAULT_TRANSIT_KEY: &str = "vault-kms-provider";
const DEFAULT_TRANSIT_MOUNT_PATH: &str = "transit";

fn environment(bindings: &[(&str, &str)]) -> Snapshot {
    let mut env = Snapshot::new();
    for (name, value) in bindings {
        env.set(name, value);
    }
    env
}

#[test]
fn initialization_via_new_defaults_to_jwt_mount_path() {
    assert_eq!(
        Jwt::new(Source::Value("hello!".to_string()), None, None).mount_path,
        DEFAULT_JWT_AUTH_MOUNT.to_string()
    );
}

#[test]
fn jwt_initialization_will_use_custom_mount_path() {
    let path = "/hello/world";
    assert_eq!(
        Jwt::new(
            Source::Value("hello!".to_string()),
            None,
            Some(path.to_string())
        )
        .mount_path,
        path.to_string()
    );
}

#[test]
fn initialization_defaults_to_kubernetes_mount_path() {
    assert_eq!(
        Kubernetes::new(Source::Value("hello!".to_string()), None, None).mount_path,
        DEFAULT_KUBERNETES_AUTH_MOUNT.to_string()
    );
}

#[test]
fn kubernetes_initialization_will_use_custom_mount_path() {
    let path = "/hello/world";
    assert_eq!(
        Kubernetes::new(
            Source::Value("hello!".to_string()),
            None,
            Some(path.to_string())
        )
        .mount_path,
        path.to_string()
    );
}

#[test]
fn constructors_fill_in_their_defaults() {
    assert_eq!(
        Kubernetes::new(Source::Value("jwt".to_string()), None, None),
        Kubernetes {
            role: "vault-kms-provider".to_string(),
            jwt: Source::Value("jwt".to_string()),
            mount_path: "kubernetes".to_string(),
        }
    );
    assert_eq!(
        AppRole::new("role".to_string(), Source::Value("secret".to_string()), None),
        AppRole {
            role_id: "role".to_string(),
            secret_id: Source::Value("secret".to_string()),
            mount_path: "approle".to_string(),
        }
    );
    assert_eq!(
        UserPass::new("user".to_string(), Source::Value("pw".to_string()), None),
        UserPass {
            username: "user".to_string(),
            password: Source::Value("pw".to_string()),
            mount_path: "userpass".to_string(),
        }
    );
    assert_eq!(
        Certificate::new("name".to_string(), None),
        Certificate {
            name: "name".to_string(),
            mount_path: "cert".to_string(),
        }
    );
    assert_eq!(
        Jwt::new(
            Source::FilePath("/token".to_string()),
            Some("role".to_string()),
            None
        ),
        Jwt {
            role: Some("role".to_string()),
            jwt: Source::FilePath("/token".to_string()),
            mount_path: "jwt".to_string(),
        }
    );
}

#[test]
fn constructors_keep_what_they_are_given() {
    assert_eq!(
        Kubernetes::new(
            Source::FilePath("/jwt".to_string()),
            Some("reader".to_string()),
            Some("k8s".to_string())
        ),
        Kubernetes {
            role: "reader".to_string(),
            jwt: Source::FilePath("/jwt".to_string()),
            mount_path: "k8s".to_string(),
        }
    );
    assert_eq!(
        AppRole::new(
            "role".to_string(),
            Source::Value("secret".to_string()),
            Some("roles".to_string())
        )
        .mount_path,
        "roles"
    );
    assert_eq!(
        UserPass::new(
            "user".to_string(),
            Source::Value("pw".to_string()),
            Some("users".to_string())
        )
        .mount_path,
        "users"
    );
    assert_eq!(
        Certificate::new("name".to_string(), Some("certs".to_string())).mount_path,
        "certs"
    );
}

#[test]
fn initializes_health_check_endpoint_with_default() {
    assert_eq!(
        HealthCheckConfiguration::from_env(&Snapshot::new()),
        HealthCheckConfiguration {
            endpoint: DEFAULT_HEALTH_ENDPOINT.to_string(),
        }
    )
}

#[test]
fn logging_initializes_values_with_default() {
    assert_eq!(
        LoggingConfiguration::from_env(&Snapshot::new()),
        LoggingConfiguration {
            level: Level::Info,
            format: DEFAULT_LOG_FORMAT.to_string(),
        }
    )
}

#[test]
fn logging_reads_level_and_format() {
    let env = environment(&[("LOG_LEVEL", "trace"), ("LOG_FORMAT", "json")]);
    assert_eq!(
        LoggingConfiguration::from_env(&env),
        LoggingConfiguration {
            level: Level::Trace,
            format: "json".to_string(),
        }
    )
}

#[test]
fn initializes_server_with_defaults() {
    let env = Snapshot::new();
    assert_eq!(
        ServerConfiguration::from_env(&env),
        ServerConfiguration {
            socket: SocketConfiguration::from_env(&env),
            vault: VaultConfiguration::from_env(&env),
            tls: TlsConfiguration::from_env(&env),
            health: HealthCheckConfiguration::from_env(&env),
        }
    );
}

#[test]
fn socket_initializes_values_with_default() {
    assert_eq!(
        SocketConfiguration::from_env(&Snapshot::new()),
        SocketConfiguration {
            socket_path: DEFAULT_SOCKET_PATH.to_string(),
            permissions: DEFAULT_SOCKET_PERMISSIONS.to_string(),
        }
    );
}

#[test]
fn initializes_values_with_silent() {
    assert_eq!(
        SocketConfiguration::silent(&Snapshot::new()),
        SocketConfiguration {
            socket_path: DEFAULT_SOCKET_PATH.to_string(),
            permissions: DEFAULT_SOCKET_PERMISSIONS.to_string(),
        }
    );
}

#[test]
fn socket_reads_path_and_permissions() {
    let env = environment(&[("SOCKET_PATH", "@kms.sock"), ("SOCKET_PERMISSIONS", "600")]);
    let expected = SocketConfiguration {
        socket_path: "@kms.sock".to_string(),
        permissions: "600".to_string(),
    };
    assert_eq!(SocketConfiguration::from_env(&env), expected);
    assert_eq!(SocketConfiguration::silent(&env), expected);
}

#[test]
fn initializes_values_via_default_method() {
    let env = Snapshot::new();
    assert_eq!(
        VaultConfiguration::from_env(&env),
        VaultConfiguration {
            credentials: Credentials::from_env(&env),
            address: DEFAULT_VAULT_ADDRESS.to_string(),
            transit_key: DEFAULT_VAULT_TRANSIT_KEY.to_string(),
            mount_path: DEFAULT_TRANSIT_MOUNT_PATH.to_string(),
        }
    );
}

#[test]
fn vault_configuration_reads_its_settings() {
    let env = environment(&[
        ("VAULT_ADDRESS", "https://localhost:8400"),
        ("VAULT_TRANSIT_KEY", "kms"),
        ("VAULT_TRANSIT_MOUNT", "transit-2"),
        ("VAULT_TOKEN", "token"),
    ]);
    assert_eq!(
        VaultConfiguration::from_env(&env),
        VaultConfiguration {
            credentials: Credentials::Token(Source::Value("token".to_string())),
            address: "https://localhost:8400".to_string(),
            transit_key: "kms".to_string(),
            mount_path: "transit-2".to_string(),
        }
    );
}

#[test]
fn no_signal_selects_no_credentials() {
    assert_eq!(Credentials::from_env(&Snapshot::new()), Credentials::Absent);
}

#[test]
fn each_mechanism_is_selected_by_its_own_signal() {
    assert_eq!(
        Credentials::from_env(&environment(&[("VAULT_TOKEN_PATH", "/token")])),
        Credentials::Token(Source::FilePath("/token".to_string()))
    );
    assert_eq!(
        Credentials::from_env(&environment(&[
            ("VAULT_KUBERNETES_JWT_PATH", "/var/run/secrets/token"),
            ("VAULT_KUBERNETES_ROLE", "kms"),
            ("VAULT_AUTH_MOUNT", "cluster"),
        ])),
        Credentials::Kubernetes(Kubernetes {
            role: "kms".to_string(),
            jwt: Source::FilePath("/var/run/secrets/token".to_string()),
            mount_path: "cluster".to_string(),
        })
    );
    assert_eq!(
        Credentials::from_env(&environment(&[("VAULT_PASSWORD", "pw")])),
        Credentials::UserPass(UserPass {
            username: "vault-kms-provider".to_string(),
            password: Source::Value("pw".to_string()),
            mount_path: "userpass".to_string(),
        })
    );
    assert_eq!(
        Credentials::from_env(&environment(&[
            ("VAULT_PASSWORD", "pw"),
            ("VAULT_USER", "someone")
        ])),
        Credentials::UserPass(UserPass {
            username: "someone".to_string(),
            password: Source::Value("pw".to_string()),
            mount_path: "userpass".to_string(),
        })
    );
    assert_eq!(
        Credentials::from_env(&environment(&[
            ("VAULT_ROLE_ID", "role"),
            ("VAULT_SECRET_ID_PATH", "/secret"),
        ])),
        Credentials::AppRole(AppRole {
            role_id: "role".to_string(),
            secret_id: Source::FilePath("/secret".to_string()),
            mount_path: "approle".to_string(),
        })
    );
    assert_eq!(
        Credentials::from_env(&environment(&[("VAULT_JWT", "a.b.c"), ("VAULT_JWT_ROLE", "r")])),
        Credentials::Jwt(Jwt {
            role: Some("r".to_string()),
            jwt: Source::Value("a.b.c".to_string()),
            mount_path: "jwt".to_string(),
        })
    );
    assert_eq!(
        Credentials::from_env(&environment(&[("VAULT_CERTIFICATE_NAME", "kms")])),
        Credentials::Certificate(Certificate {
            name: "kms".to_string(),
            mount_path: "cert".to_string(),
        })
    );
}

#[test]
fn the_first_mechanism_in_the_order_wins() {
    let all = [
        ("VAULT_CERTIFICATE_NAME", "kms"),
        ("VAULT_JWT", "a.b.c"),
        ("VAULT_SECRET_ID", "secret"),
        ("VAULT_ROLE_ID", "role"),
        ("VAULT_PASSWORD", "pw"),
        ("VAULT_KUBERNETES_JWT", "jwt"),
        ("VAULT_TOKEN", "token"),
    ];
    let selected: Vec<Credentials> = (0..=all.len())
        .map(|kept| Credentials::from_env(&environment(&all[..kept])))
        .collect();
    assert_eq!(selected[0], Credentials::Absent);
    assert!(matches!(selected[1], Credentials::Certificate(_)));
    assert!(matches!(selected[2], Credentials::Jwt(_)));
    assert!(matches!(selected[3], Credentials::Jwt(_)));
    assert!(matches!(selected[4], Credentials::AppRole(_)));
    assert!(matches!(selected[5], Credentials::UserPass(_)));
    assert!(matches!(selected[6], Credentials::Kubernetes(_)));
    assert!(matches!(selected[7], Credentials::Token(_)));
}

#[test]
fn a_role_id_without_a_secret_id_selects_nothing() {
    assert_eq!(
        Credentials::from_env(&environment(&[("VAULT_ROLE_ID", "role")])),
        Credentials::Absent
    );
    assert_eq!(
        Credentials::from_env(&environment(&[("VAULT_SECRET_ID", "secret")])),
        Credentials::Absent
    );
}

#[test]
fn the_same_environment_selects_the_same_credentials() {
    let env = environment(&[("VAULT_PASSWORD_PATH", "/pw"), ("VAULT_JWT", "a.b.c")]);
    assert_eq!(Credentials::from_env(&env), Credentials::from_env(&env));
}

#[test]
fn the_rotation_path_is_the_path_of_a_secret_kept_in_a_file() {
    let file = || Source::FilePath("/secret".to_string());
    let inline = || Source::Value("secret".to_string());
    let path = Some("/secret".to_string());
    assert_eq!(Credentials::Token(file()).rotation_path(), path);
    assert_eq!(Credentials::Token(inline()).rotation_path(), None);
    assert_eq!(
        Credentials::Kubernetes(Kubernetes::new(file(), None, None)).rotation_path(),
        path
    );
    assert_eq!(
        Credentials::UserPass(UserPass::new("u".to_string(), file(), None)).rotation_path(),
        path
    );
    assert_eq!(
        Credentials::AppRole(AppRole::new("r".to_string(), file(), None)).rotation_path(),
        path
    );
    assert_eq!(
        Credentials::Jwt(Jwt::new(file(), None, None)).rotation_path(),
        path
    );
    assert_eq!(
        Credentials::Jwt(Jwt::new(inline(), None, None)).rotation_path(),
        None
    );
    assert_eq!(
        Credentials::Certificate(Certificate::new("c".to_string(), None)).rotation_path(),
        None
    );
    assert_eq!(Credentials::Absent.rotation_path(), None);
}
