use crate::utilities::source::{Source, SourceView};
use vstd::prelude::*;

verus! {

/// The mount path of the username / password login where none is configured.
pub open spec fn default_mount_path() -> Seq<char> {
    "userpass"@
}

/// The mathematical model of [`UserPass`].
pub struct UserPassView {
    pub username: Seq<char>,
    pub password: SourceView,
    pub mount_path: Seq<char>,
}

impl UserPassView {
    /// The credential made from the given parts, with the default mount
    /// path where none is given.
    pub open spec fn new(
        username: Seq<char>,
        password: SourceView,
        mount_path: Option<Seq<char>>,
    ) -> UserPassView {
        UserPassView {
            username,
            password,
            mount_path: match mount_path {
                Some(path) => path,
                None => default_mount_path(),
            },
        }
    }
}

/// A username and its password.
#[derive(Debug, PartialEq)]
pub struct UserPass {
    pub username: String,
    pub password: Source,
    pub mount_path: String,
}

impl View for UserPass {
    type V = UserPassView;

    open spec fn view(&self) -> UserPassView {
        UserPassView {
            username: self.username@,
            password: self.password@,
            mount_path: self.mount_path@,
        }
    }
}

impl Clone for UserPass {
    fn clone(&self) -> (result: Self)
        ensures
            result@ == self@,
    {
        UserPass {
            username: self.username.clone(),
            password: self.password.clone(),
            mount_path: self.mount_path.clone(),
        }
    }
}

impl UserPass {
    /// Makes the credential from its parts; without a mount path it logs in
    /// at `userpass`.
    pub fn new(username: String, password: Source, mount_path: Option<String>) -> (result: Self)
        ensures
            result@ == UserPassView::new(username@, password@, mount_path.deep_view()),
    {
        UserPass {
            username,
            password,
            mount_path: match mount_path {
                Some(path) => path,
                None => "userpass".to_owned(),
            },
        }
    }
}

} // verus!
