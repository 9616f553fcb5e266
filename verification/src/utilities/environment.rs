use crate::utilities::snapshot::Snapshot;
use crate::utilities::source::{Source, SourceView};
use crate::utilities::text::{snake_case, to_snake_case, to_upper_case, upper_case};
use vstd::prelude::*;

verus! {

/// The settings that the process reads from its environment.
#[derive(Debug, Clone, Copy, PartialEq, Eq, Structural)]
pub enum Environment {
    VaultCertificateName,
    VaultJwt,
    VaultJwtPath,
    VaultJwtRole,
    VaultAuthMount,
    VaultToken,
    VaultTokenPath,
    VaultKubernetesJwt,
    VaultKubernetesJwtPath,
    VaultKubernetesRole,
    VaultPassword,
    VaultPasswordPath,
    VaultUser,
    VaultRoleId,
    VaultSecretId,
    VaultSecretIdPath,
    HttpAddress,
    LogLevel,
    LogFormat,
    SocketPath,
    SocketPermissions,
    VaultCaPath,
    VaultCaCert,
    VaultClientCert,
    VaultClientKey,
    VaultAddress,
    VaultTransitKey,
    VaultTransitMount,
    Unknown,
}

/// The first of `candidates` whose variable is called `name`, or
/// `Environment::Unknown` where there is none.
pub open spec fn first_named(candidates: Seq<Environment>, name: Seq<char>) -> Environment
    decreases candidates.len(),
{
    if candidates.len() == 0 {
        Environment::Unknown
    } else if candidates[0].name() == name {
        candidates[0]
    } else {
        first_named(candidates.skip(1), name)
    }
}

/// The suffix that turns a variable holding a value into the variable
/// holding the path of a file with that value.
pub open spec fn path_suffix() -> Seq<char> {
    "_PATH"@
}

impl Environment {
    /// The identifier of the setting, as it is written in this enumeration.
    pub open spec fn identifier(self) -> Seq<char> {
        match self {
            Environment::VaultCertificateName => "VaultCertificateName"@,
            Environment::VaultJwt => "VaultJwt"@,
            Environment::VaultJwtPath => "VaultJwtPath"@,
            Environment::VaultJwtRole => "VaultJwtRole"@,
            Environment::VaultAuthMount => "VaultAuthMount"@,
            Environment::VaultToken => "VaultToken"@,
            Environment::VaultTokenPath => "VaultTokenPath"@,
            Environment::VaultKubernetesJwt => "VaultKubernetesJwt"@,
            Environment::VaultKubernetesJwtPath => "VaultKubernetesJwtPath"@,
            Environment::VaultKubernetesRole => "VaultKubernetesRole"@,
            Environment::VaultPassword => "VaultPassword"@,
            Environment::VaultPasswordPath => "VaultPasswordPath"@,
            Environment::VaultUser => "VaultUser"@,
            Environment::VaultRoleId => "VaultRoleId"@,
            Environment::VaultSecretId => "VaultSecretId"@,
            Environment::VaultSecretIdPath => "VaultSecretIdPath"@,
            Environment::HttpAddress => "HttpAddress"@,
            Environment::LogLevel => "LogLevel"@,
            Environment::LogFormat => "LogFormat"@,
            Environment::SocketPath => "SocketPath"@,
            Environment::SocketPermissions => "SocketPermissions"@,
            Environment::VaultCaPath => "VaultCaPath"@,
            Environment::VaultCaCert => "VaultCaCert"@,
            Environment::VaultClientCert => "VaultClientCert"@,
            Environment::VaultClientKey => "VaultClientKey"@,
            Environment::VaultAddress => "VaultAddress"@,
            Environment::VaultTransitKey => "VaultTransitKey"@,
            Environment::VaultTransitMount => "VaultTransitMount"@,
            Environment::Unknown => "Unknown"@,
        }
    }

    /// The name of the environment variable that carries the setting: its
    /// identifier in snake case, in capitals.
    pub open spec fn name(self) -> Seq<char> {
        upper_case(snake_case(self.identifier()))
    }

    /// Every setting, in the order in which a name is looked up.
    pub open spec fn all() -> Seq<Environment> {
        seq![
            Environment::VaultCertificateName,
            Environment::VaultJwt,
            Environment::VaultJwtPath,
            Environment::VaultJwtRole,
            Environment::VaultAuthMount,
            Environment::VaultToken,
            Environment::VaultTokenPath,
            Environment::VaultKubernetesJwt,
            Environment::VaultKubernetesJwtPath,
            Environment::VaultKubernetesRole,
            Environment::VaultPassword,
            Environment::VaultPasswordPath,
            Environment::VaultUser,
            Environment::VaultRoleId,
            Environment::VaultSecretId,
            Environment::VaultSecretIdPath,
            Environment::HttpAddress,
            Environment::LogLevel,
            Environment::LogFormat,
            Environment::SocketPath,
            Environment::SocketPermissions,
            Environment::VaultCaPath,
            Environment::VaultCaCert,
            Environment::VaultClientCert,
            Environment::VaultClientKey,
            Environment::VaultAddress,
            Environment::VaultTransitKey,
            Environment::VaultTransitMount,
            Environment::Unknown,
        ]
    }

    /// The setting whose variable is called `name`; `Unknown` for any other name.
    pub open spec fn named(name: Seq<char>) -> Environment {
        first_named(Self::all(), name)
    }

    /// What the setting is set to in `env`: the variable's value, unless the
    /// variable is missing or empty, or the setting is `Unknown`.
    pub open spec fn lookup(self, env: Map<Seq<char>, Seq<char>>) -> Option<Seq<char>> {
        if self != Environment::Unknown && env.contains_key(self.name()) && env[self.name()].len()
            > 0 {
            Some(env[self.name()])
        } else {
            None
        }
    }

    /// What the setting is set to in `env`, or `default`.
    pub open spec fn lookup_or(self, env: Map<Seq<char>, Seq<char>>, default: Seq<char>) -> Seq<
        char,
    > {
        match self.lookup(env) {
            Some(value) => value,
            None => default,
        }
    }

    /// The secret that the setting points to in `env`: the value of its own
    /// variable, or else the file named by its companion path variable.
    pub open spec fn lookup_source(self, env: Map<Seq<char>, Seq<char>>) -> Option<SourceView> {
        if self == Environment::Unknown {
            None
        } else {
            match self.lookup(env) {
                Some(value) => Some(SourceView::Value(value)),
                None => match Self::named(self.name() + path_suffix()).lookup(env) {
                    Some(path) => Some(SourceView::FilePath(path)),
                    None => None,
                },
            }
        }
    }

    /// Returns the identifier of the setting.
    pub fn as_identifier(&self) -> (result: &'static str)
        ensures
            result@ == self.identifier(),
    {
        match self {
            Environment::VaultCertificateName => "VaultCertificateName",
            Environment::VaultJwt => "VaultJwt",
            Environment::VaultJwtPath => "VaultJwtPath",
            Environment::VaultJwtRole => "VaultJwtRole",
            Environment::VaultAuthMount => "VaultAuthMount",
            Environment::VaultToken => "VaultToken",
            Environment::VaultTokenPath => "VaultTokenPath",
            Environment::VaultKubernetesJwt => "VaultKubernetesJwt",
            Environment::VaultKubernetesJwtPath => "VaultKubernetesJwtPath",
            Environment::VaultKubernetesRole => "VaultKubernetesRole",
            Environment::VaultPassword => "VaultPassword",
            Environment::VaultPasswordPath => "VaultPasswordPath",
            Environment::VaultUser => "VaultUser",
            Environment::VaultRoleId => "VaultRoleId",
            Environment::VaultSecretId => "VaultSecretId",
            Environment::VaultSecretIdPath => "VaultSecretIdPath",
            Environment::HttpAddress => "HttpAddress",
            Environment::LogLevel => "LogLevel",
            Environment::LogFormat => "LogFormat",
            Environment::SocketPath => "SocketPath",
            Environment::SocketPermissions => "SocketPermissions",
            Environment::VaultCaPath => "VaultCaPath",
            Environment::VaultCaCert => "VaultCaCert",
            Environment::VaultClientCert => "VaultClientCert",
            Environment::VaultClientKey => "VaultClientKey",
            Environment::VaultAddress => "VaultAddress",
            Environment::VaultTransitKey => "VaultTransitKey",
            Environment::VaultTransitMount => "VaultTransitMount",
            Environment::Unknown => "Unknown",
        }
    }

    /// Returns the name of the environment variable that carries the setting.
    pub fn to_string(&self) -> (result: String)
        ensures
            result@ == self.name(),
    {
        let snake = to_snake_case(self.as_identifier());
        to_upper_case(snake.as_str())
    }

    /// Returns every setting, in the order in which a name is looked up.
    pub fn iter() -> (result: Vec<Environment>)
        ensures
            result@ == Self::all(),
    {
        let result = vec![
            Environment::VaultCertificateName,
            Environment::VaultJwt,
            Environment::VaultJwtPath,
            Environment::VaultJwtRole,
            Environment::VaultAuthMount,
            Environment::VaultToken,
            Environment::VaultTokenPath,
            Environment::VaultKubernetesJwt,
            Environment::VaultKubernetesJwtPath,
            Environment::VaultKubernetesRole,
            Environment::VaultPassword,
            Environment::VaultPasswordPath,
            Environment::VaultUser,
            Environment::VaultRoleId,
            Environment::VaultSecretId,
            Environment::VaultSecretIdPath,
            Environment::HttpAddress,
            Environment::LogLevel,
            Environment::LogFormat,
            Environment::SocketPath,
            Environment::SocketPermissions,
            Environment::VaultCaPath,
            Environment::VaultCaCert,
            Environment::VaultClientCert,
            Environment::VaultClientKey,
            Environment::VaultAddress,
            Environment::VaultTransitKey,
            Environment::VaultTransitMount,
            Environment::Unknown,
        ];
        assert(result@ =~= Self::all());
        result
    }

    /// Returns the setting whose variable is called `name`, and `Unknown`
    /// for a name that belongs to no setting.
    pub fn from_name(name: &str) -> (result: Environment)
        ensures
            result == Self::named(name@),
    {
        let candidates = Self::iter();
        let mut i: usize = 0;
        assert(candidates@.skip(0) =~= candidates@);
        while i < candidates.len()
            invariant
                i <= candidates.len(),
                candidates@ == Self::all(),
                first_named(candidates@.skip(i as int), name@) == Self::named(name@),
            decreases candidates.len() - i,
        {
            let candidate = candidates[i];
            let candidate_name = candidate.to_string();
            proof {
                let rest = candidates@.skip(i as int);
                assert(rest[0] == candidate);
                assert(rest.skip(1) =~= candidates@.skip(i + 1));
            }
            if crate::utilities::text::same_text(candidate_name.as_str(), name) {
                return candidate;
            }
            i = i + 1;
        }
        assert(candidates@.skip(i as int).len() == 0);
        Environment::Unknown
    }

    /// Returns what the setting is set to in `env`: nothing where the
    /// variable is missing or empty, and nothing for `Unknown`.
    pub fn silent_get(&self, env: &Snapshot) -> (result: Option<String>)
        ensures
            result.deep_view() == self.lookup(env@),
    {
        let name = self.to_string();
        let value = env.var(name.as_str());
        if *self == Environment::Unknown {
            None
        } else {
            match value {
                Some(text) => {
                    if text.as_str().is_empty() {
                        None
                    } else {
                        Some(text)
                    }
                },
                None => None,
            }
        }
    }

    /// Returns what the setting is set to in `env`, as `silent_get` does.
    pub fn get(&self, env: &Snapshot) -> (result: Option<String>)
        ensures
            result.deep_view() == self.lookup(env@),
    {
        self.silent_get(env)
    }

    /// Returns what the setting is set to in `env`, or `default` where it
    /// is not set.
    pub fn or(&self, env: &Snapshot, default: &str) -> (result: String)
        ensures
            result@ == self.lookup_or(env@, default@),
    {
        match self.get(env) {
            Some(value) => value,
            None => default.to_owned(),
        }
    }

    /// Returns what the setting is set to in `env`, or `default` where it
    /// is not set.
    pub fn silent_or(&self, env: &Snapshot, default: &str) -> (result: String)
        ensures
            result@ == self.lookup_or(env@, default@),
    {
        match self.silent_get(env) {
            Some(value) => value,
            None => default.to_owned(),
        }
    }

    /// Returns the secret that the setting points to in `env`: the value of
    /// its own variable where that is set, else the file named by the
    /// variable of the same name with `_PATH` appended.
    pub fn source(&self, env: &Snapshot) -> (result: Option<Source>)
        ensures
            result.deep_view() == self.lookup_source(env@),
    {
        if *self == Environment::Unknown {
            None
        } else {
            match self.get(env) {
                Some(value) => Some(Source::Value(value)),
                None => {
                    let path_name = self.to_string().concat("_PATH");
                    match Self::from_name(path_name.as_str()).get(env) {
                        Some(path) => Some(Source::FilePath(path)),
                        None => None,
                    }
                },
            }
        }
    }
}

} // verus!

verus! {

impl From<String> for Environment {
    fn from(value: String) -> (result: Self) {
        Environment::from_name(value.as_str())
    }
}

impl vstd::std_specs::convert::FromSpecImpl<String> for Environment {
    open spec fn obeys_from_spec() -> bool {
        true
    }

    open spec fn from_spec(value: String) -> Environment {
        Environment::named(value@)
    }
}

impl From<&str> for Environment {
    fn from(value: &str) -> (result: Self) {
        Environment::from_name(value)
    }
}

impl vstd::std_specs::convert::FromSpecImpl<&str> for Environment {
    open spec fn obeys_from_spec() -> bool {
        true
    }

    open spec fn from_spec(value: &str) -> Environment {
        Environment::named(value@)
    }
}

} // verus!
