use crate::utilities::environment::Environment;
use crate::utilities::snapshot::Snapshot;
use vstd::prelude::*;

verus! {

/// The address of the health endpoint where none is configured.
pub open spec fn default_endpoint() -> Seq<char> {
    "0.0.0.0:8080"@
}

/// Where the liveness and readiness checks are served.
#[derive(Debug, PartialEq)]
pub struct HealthCheckConfiguration {
    pub endpoint: String,
}

impl Clone for HealthCheckConfiguration {
    fn clone(&self) -> (result: Self)
        ensures
            result.endpoint@ == self.endpoint@,
    {
        HealthCheckConfiguration { endpoint: self.endpoint.clone() }
    }
}

impl HealthCheckConfiguration {
    /// Reads the configuration from the environment `env`: the address in
    /// `HTTP_ADDRESS`'s setting, or the default one.
    pub fn from_env(env: &Snapshot) -> (result: Self)
        ensures
            result.endpoint@ == Environment::HttpAddress.lookup_or(env@, default_endpoint()),
    {
        HealthCheckConfiguration { endpoint: Environment::HttpAddress.or(env, "0.0.0.0:8080") }
    }
}

} // verus!
