use crate::utilities::source::{Source, SourceView};
use vstd::prelude::*;

verus! {

/// The mount path of the federated-identity login where none is configured.
pub open spec fn default_mount_path() -> Seq<char> {
    "kubernetes"@
}

/// The role that the federated-identity login asks for where none is configured.
pub open spec fn default_role() -> Seq<char> {
    "vault-kms-provider"@
}

/// The mathematical model of [`Kubernetes`].
pub struct KubernetesView {
    pub role: Seq<char>,
    pub jwt: SourceView,
    pub mount_path: Seq<char>,
}

impl KubernetesView {
    /// The credential made from the given parts, with the default role and
    /// the default mount path where none is given.
    pub open spec fn new(
        source: SourceView,
        role: Option<Seq<char>>,
        mount_path: Option<Seq<char>>,
    ) -> KubernetesView {
        KubernetesView {
            role: match role {
                Some(role) => role,
                None => default_role(),
            },
            jwt: source,
            mount_path: match mount_path {
                Some(path) => path,
                None => default_mount_path(),
            },
        }
    }
}

/// The identity that the orchestrator mounts into the workload, and the
/// role to log in as with it.
#[derive(Debug, PartialEq)]
pub struct Kubernetes {
    pub role: String,
    pub jwt: Source,
    pub mount_path: String,
}

impl View for Kubernetes {
    type V = KubernetesView;

    open spec fn view(&self) -> KubernetesView {
        KubernetesView { role: self.role@, jwt: self.jwt@, mount_path: self.mount_path@ }
    }
}

impl Clone for Kubernetes {
    fn clone(&self) -> (result: Self)
        ensures
            result@ == self@,
    {
        Kubernetes {
            role: self.role.clone(),
            jwt: self.jwt.clone(),
            mount_path: self.mount_path.clone(),
        }
    }
}

impl Kubernetes {
    /// Makes the credential from its parts; without a role it logs in as
    /// `vault-kms-provider`, without a mount path at `kubernetes`.
    pub fn new(source: Source, role: Option<String>, mount_path: Option<String>) -> (result: Self)
        ensures
            result@ == KubernetesView::new(source@, role.deep_view(), mount_path.deep_view()),
    {
        Kubernetes {
            role: match role {
                Some(role) => role,
                None => "vault-kms-provider".to_owned(),
            },
            jwt: source,
            mount_path: match mount_path {
                Some(path) => path,
                None => "kubernetes".to_owned(),
            },
        }
    }
}

} // verus!
