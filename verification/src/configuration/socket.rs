use crate::utilities::environment::Environment;
use crate::utilities::snapshot::Snapshot;
use vstd::prelude::*;

verus! {

/// The path of the socket where none is configured.
pub open spec fn default_socket_path() -> Seq<char> {
    "./sockets/vault-kms-provider.sock"@
}

/// The permissions of the socket's file where none are configured.
pub open spec fn default_socket_permissions() -> Seq<char> {
    "666"@
}

/// The mathematical model of [`SocketConfiguration`].
pub struct SocketConfigurationView {
    pub socket_path: Seq<char>,
    pub permissions: Seq<char>,
}

impl SocketConfigurationView {
    /// The configuration that an environment asks for.
    pub open spec fn from_env(env: Map<Seq<char>, Seq<char>>) -> SocketConfigurationView {
        SocketConfigurationView {
            socket_path: Environment::SocketPath.lookup_or(env, default_socket_path()),
            permissions: Environment::SocketPermissions.lookup_or(
                env,
                default_socket_permissions(),
            ),
        }
    }
}

/// Where the service listens, and who may connect.
#[derive(Debug, PartialEq)]
pub struct SocketConfiguration {
    pub socket_path: String,
    pub permissions: String,
}

impl View for SocketConfiguration {
    type V = SocketConfigurationView;

    open spec fn view(&self) -> SocketConfigurationView {
        SocketConfigurationView {
            socket_path: self.socket_path@,
            permissions: self.permissions@,
        }
    }
}

impl Clone for SocketConfiguration {
    fn clone(&self) -> (result: Self)
        ensures
            result@ == self@,
    {
        SocketConfiguration {
            socket_path: self.socket_path.clone(),
            permissions: self.permissions.clone(),
        }
    }
}

impl SocketConfiguration {
    /// Reads the configuration from the environment `env`, with the
    /// defaults for what `env` leaves unset.
    pub fn from_env(env: &Snapshot) -> (result: Self)
        ensures
            result@ == SocketConfigurationView::from_env(env@),
    {
        SocketConfiguration {
            socket_path: Environment::SocketPath.or(env, "./sockets/vault-kms-provider.sock"),
            permissions: Environment::SocketPermissions.or(env, "666"),
        }
    }

    /// Reads the configuration as `from_env` does. It is the reading for
    /// callers that ask often, such as the readiness check.
    pub fn silent(env: &Snapshot) -> (result: Self)
        ensures
            result@ == SocketConfigurationView::from_env(env@),
    {
        SocketConfiguration {
            socket_path: Environment::SocketPath.silent_or(env, "./sockets/vault-kms-provider.sock"),
            permissions: Environment::SocketPermissions.silent_or(env, "666"),
        }
    }
}

} // verus!
