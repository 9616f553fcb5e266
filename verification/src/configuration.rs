pub mod authentication;
pub mod health;
pub mod logging;
pub mod socket;
pub mod tls;
pub mod vault;

use vstd::prelude::*;

verus! {

/// Everything that the server is configured with.
#[derive(Debug, PartialEq)]
pub struct ServerConfiguration {
    pub socket: socket::SocketConfiguration,
    pub vault: vault::VaultConfiguration,
    pub tls: tls::TlsConfiguration,
    pub health: health::HealthCheckConfiguration,
}

impl Clone for ServerConfiguration {
    fn clone(&self) -> (result: Self)
        ensures
            result.socket@ == self.socket@,
            result.vault@ == self.vault@,
            result.tls@ == self.tls@,
            result.health.endpoint@ == self.health.endpoint@,
    {
        ServerConfiguration {
            socket: self.socket.clone(),
            vault: self.vault.clone(),
            tls: self.tls.clone(),
            health: self.health.clone(),
        }
    }
}

impl ServerConfiguration {
    /// Reads the configuration from the environment `env`: each part as
    /// its own reading gives it.
    pub fn from_env(env: &crate::utilities::snapshot::Snapshot) -> (result: Self)
        ensures
            result.socket@ == socket::SocketConfigurationView::from_env(env@),
            result.vault@ == vault::VaultConfigurationView::from_env(env@),
            result.tls@ == tls::TlsConfigurationView::from_env(env@),
            result.health.endpoint@ == crate::utilities::environment::Environment::HttpAddress.lookup_or(
                env@,
                health::default_endpoint(),
            ),
    {
        ServerConfiguration {
            socket: socket::SocketConfiguration::from_env(env),
            vault: vault::VaultConfiguration::from_env(env),
            tls: tls::TlsConfiguration::from_env(env),
            health: health::HealthCheckConfiguration::from_env(env),
        }
    }
}

} // verus!
