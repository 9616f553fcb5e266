use crate::utilities::source::{Source, SourceView};
use vstd::prelude::*;

verus! {

/// The mount path of the role-id / secret-id login where none is configured.
pub open spec fn default_mount_path() -> Seq<char> {
    "approle"@
}

/// The mathematical model of [`AppRole`].
pub struct AppRoleView {
    pub role_id: Seq<char>,
    pub secret_id: SourceView,
    pub mount_path: Seq<char>,
}

impl AppRoleView {
    /// The credential made from the given parts, with the default mount
    /// path where none is given.
    pub open spec fn new(
        role_id: Seq<char>,
        secret_id: SourceView,
        mount_path: Option<Seq<char>>,
    ) -> AppRoleView {
        AppRoleView {
            role_id,
            secret_id,
            mount_path: match mount_path {
                Some(path) => path,
                None => default_mount_path(),
            },
        }
    }
}

/// A role-id / secret-id pair.
#[derive(Debug, PartialEq)]
pub struct AppRole {
    pub role_id: String,
    pub secret_id: Source,
    pub mount_path: String,
}

impl View for AppRole {
    type V = AppRoleView;

    open spec fn view(&self) -> AppRoleView {
        AppRoleView {
            role_id: self.role_id@,
            secret_id: self.secret_id@,
            mount_path: self.mount_path@,
        }
    }
}

impl Clone for AppRole {
    fn clone(&self) -> (result: Self)
        ensures
            result@ == self@,
    {
        AppRole {
            role_id: self.role_id.clone(),
            secret_id: self.secret_id.clone(),
            mount_path: self.mount_path.clone(),
        }
    }
}

impl AppRole {
    /// Makes the credential from its parts; without a mount path it logs in
    /// at `approle`.
    pub fn new(role_id: String, secret_id: Source, mount_path: Option<String>) -> (result: Self)
        ensures
            result@ == AppRoleView::new(role_id@, secret_id@, mount_path.deep_view()),
    {
        AppRole {
            role_id,
            secret_id,
            mount_path: match mount_path {
                Some(path) => path,
                None => "approle".to_owned(),
            },
        }
    }
}

} // verus!
