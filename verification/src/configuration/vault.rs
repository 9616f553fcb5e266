use crate::configuration::authentication::{Credentials, CredentialsView};
use crate::utilities::environment::Environment;
use crate::utilities::snapshot::Snapshot;
use vstd::prelude::*;

verus! {

/// The address of the backend where none is configured.
pub open spec fn default_address() -> Seq<char> {
    "https://vault.vault.svc.cluster.local:8200"@
}

/// The name of the transit key where none is configured.
pub open spec fn default_transit_key() -> Seq<char> {
    "vault-kms-provider"@
}

/// The mount path of the transit engine where none is configured.
pub open spec fn default_mount_path() -> Seq<char> {
    "transit"@
}

/// The mathematical model of [`VaultConfiguration`].
pub struct VaultConfigurationView {
    pub credentials: CredentialsView,
    pub address: Seq<char>,
    pub transit_key: Seq<char>,
    pub mount_path: Seq<char>,
}

impl VaultConfigurationView {
    /// The configuration that an environment asks for.
    pub open spec fn from_env(env: Map<Seq<char>, Seq<char>>) -> VaultConfigurationView {
        VaultConfigurationView {
            credentials: CredentialsView::select(env),
            address: Environment::VaultAddress.lookup_or(env, default_address()),
            transit_key: Environment::VaultTransitKey.lookup_or(env, default_transit_key()),
            mount_path: Environment::VaultTransitMount.lookup_or(env, default_mount_path()),
        }
    }
}

/// Where the backend is, how to authenticate to it, and which key of its
/// transit engine to use.
#[derive(Debug, PartialEq)]
pub struct VaultConfiguration {
    pub credentials: Credentials,
    pub address: String,
    pub transit_key: String,
    pub mount_path: String,
}

impl View for VaultConfiguration {
    type V = VaultConfigurationView;

    open spec fn view(&self) -> VaultConfigurationView {
        VaultConfigurationView {
            credentials: self.credentials@,
            address: self.address@,
            transit_key: self.transit_key@,
            mount_path: self.mount_path@,
        }
    }
}

impl Clone for VaultConfiguration {
    fn clone(&self) -> (result: Self)
        ensures
            result@ == self@,
    {
        VaultConfiguration {
            credentials: self.credentials.clone(),
            address: self.address.clone(),
            transit_key: self.transit_key.clone(),
            mount_path: self.mount_path.clone(),
        }
    }
}

impl VaultConfiguration {
    /// Reads the configuration from the environment `env`, with the
    /// defaults for what `env` leaves unset.
    pub fn from_env(env: &Snapshot) -> (result: Self)
        ensures
            result@ == VaultConfigurationView::from_env(env@),
    {
        VaultConfiguration {
            credentials: Credentials::from_env(env),
            address: Environment::VaultAddress.or(env, "https://vault.vault.svc.cluster.local:8200"),
            transit_key: Environment::VaultTransitKey.or(env, "vault-kms-provider"),
            mount_path: Environment::VaultTransitMount.or(env, "transit"),
        }
    }
}

} // verus!
