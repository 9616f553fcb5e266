use crate::utilities::source::{Source, SourceView};
use vstd::prelude::*;

verus! {

/// The mount path of the signed-token login where none is configured.
pub open spec fn default_mount_path() -> Seq<char> {
    "jwt"@
}

/// The mathematical model of [`Jwt`].
pub struct JwtView {
    pub role: Option<Seq<char>>,
    pub jwt: SourceView,
    pub mount_path: Seq<char>,
}

impl JwtView {
    /// The credential made from the given parts, with the default mount
    /// path where none is given.
    pub open spec fn new(
        source: SourceView,
        role: Option<Seq<char>>,
        mount_path: Option<Seq<char>>,
    ) -> JwtView {
        JwtView {
            role,
            jwt: source,
            mount_path: match mount_path {
                Some(path) => path,
                None => default_mount_path(),
            },
        }
    }
}

/// A signed token, and the role to log in as with it, if any.
#[derive(Debug, PartialEq)]
pub struct Jwt {
    pub role: Option<String>,
    pub jwt: Source,
    pub mount_path: String,
}

impl View for Jwt {
    type V = JwtView;

    open spec fn view(&self) -> JwtView {
        JwtView { role: self.role.deep_view(), jwt: self.jwt@, mount_path: self.mount_path@ }
    }
}

impl Clone for Jwt {
    fn clone(&self) -> (result: Self)
        ensures
            result@ == self@,
    {
        Jwt {
            role: match &self.role {
                Some(role) => Some(role.clone()),
                None => None,
            },
            jwt: self.jwt.clone(),
            mount_path: self.mount_path.clone(),
        }
    }
}

impl Jwt {
    /// Makes the credential from its parts; without a mount path it logs in
    /// at `jwt`.
    pub fn new(source: Source, role: Option<String>, mount_path: Option<String>) -> (result: Self)
        ensures
            result@ == JwtView::new(source@, role.deep_view(), mount_path.deep_view()),
    {
        Jwt {
            role,
            jwt: source,
            mount_path: match mount_path {
                Some(path) => path,
                None => "jwt".to_owned(),
            },
        }
    }
}

} // verus!
