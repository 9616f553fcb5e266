use vault_kms_provider::configuration::authentication::Credentials;
use vault_kms_provider::configuration::health::HealthCheckConfiguration;
use vault_kms_provider::configuration::socket::SocketConfiguration;
use vault_kms_provider::configuration::tls::TlsConfiguration;
use vault_kms_provider::configuration::vault::VaultConfiguration;
use vault_kms_provider::configuration::ServerConfiguration;
use vault_kms_provider::utilities::socket::Listen;
use vault_kms_provider::utilities::source::Source;
use vault_kms_provider::utilities::watcher::Watcher;
use vault_kms_provider::vault::service::ServerState;
use vault_kms_provider::{server, Task, TaskGroup};

fn server_config(credentials: Credentials) -> ServerConfiguration {
    ServerConfiguration {
        health: HealthCheckConfiguration {
            endpoint: "127.0.0.1:8080".to_string(),
        },
        socket: SocketConfiguration {
            socket_path: "@test_files/kms.sock".to_string(),
            permissions: "777".to_string(),
        },
        vault: VaultConfiguration {
            address: "https://localhost:8400".to_string(),
            transit_key: "vault-kms-provider".to_string(),
            mount_path: "transit".to_string(),
            credentials,
        },
        tls: TlsConfiguration {
            cert: Some("./test_files/certs/tls.crt".to_string()),
            key: Some("./test_files/certs/tls.key".to_string()),
            ca: Some("./test_files/certs/ca.crt".to_string()),
            directory: None,
        },
    }
}

#[test]
fn lays_out_the_server_from_its_configuration() {
    let plan = server(&server_config(Credentials::Token(Source::Value(
        "validtoken".to_string(),
    ))));
    assert_eq!(
        plan.listen,
        Listen {
            address: b"\0test_files/kms.sock".to_vec(),
            prepare_file: false,
            permissions: None,
        }
    );
    assert_eq!(plan.address, "https://localhost:8400");
    assert_eq!(plan.health_endpoint, "127.0.0.1:8080");
    assert_eq!(plan.service.state(), ServerState::Uninitialized);
    assert_eq!(plan.service.client().token(), None);
    assert_eq!(plan.watcher, Watcher::Idle);
}

#[test]
fn watches_the_file_of_the_configured_credentials() {
    let mut config = server_config(Credentials::Token(Source::FilePath(
        "/var/run/secrets/token".to_string(),
    )));
    config.socket.socket_path = "./sockets/kms.sock".to_string();
    config.socket.permissions = "600".to_string();
    let plan = server(&config);
    assert_eq!(
        plan.watcher,
        Watcher::Watching("/var/run/secrets/token".to_string())
    );
    assert_eq!(
        plan.listen,
        Listen {
            address: b"./sockets/kms.sock".to_vec(),
            prepare_file: true,
            permissions: Some(0o600),
        }
    );
    assert_eq!(
        plan.service.client().credentials(),
        &Credentials::Token(Source::FilePath("/var/run/secrets/token".to_string()))
    );
}

#[test]
fn the_first_failure_ends_the_group() {
    let mut group = TaskGroup::new();
    assert_eq!(group.verdict(), None);
    assert_eq!(group.finished(Task::Checks, Ok(())), None);
    assert_eq!(
        group.finished(Task::Watcher, Err("watch failed".to_string())),
        Some(Err("watch failed".to_string()))
    );
    assert_eq!(
        group.finished(Task::Service, Err("socket closed".to_string())),
        Some(Err("watch failed".to_string()))
    );
    assert_eq!(
        group.finished(Task::Service, Ok(())),
        Some(Err("watch failed".to_string()))
    );
    assert_eq!(group.verdict(), Some(Err("watch failed".to_string())));
}

#[test]
fn the_group_ends_well_when_all_tasks_have() {
    let mut group = TaskGroup::new();
    assert_eq!(group.finished(Task::Watcher, Ok(())), None);
    assert_eq!(group.finished(Task::Watcher, Ok(())), None);
    assert_eq!(group.finished(Task::Service, Ok(())), None);
    assert_eq!(group.finished(Task::Checks, Ok(())), Some(Ok(())));
    assert_eq!(
        group.finished(Task::Checks, Err("late".to_string())),
        Some(Ok(()))
    );
}
