use vstd::prelude::*;

verus! {

/// The mount path of the certificate login where none is configured.
pub open spec fn default_mount_path() -> Seq<char> {
    "cert"@
}

/// The mathematical model of [`Certificate`].
pub struct CertificateView {
    pub name: Seq<char>,
    pub mount_path: Seq<char>,
}

impl CertificateView {
    /// The credential made from the given parts, with the default mount
    /// path where none is given.
    pub open spec fn new(name: Seq<char>, mount_path: Option<Seq<char>>) -> CertificateView {
        CertificateView {
            name,
            mount_path: match mount_path {
                Some(path) => path,
                None => default_mount_path(),
            },
        }
    }
}

/// The name of a certificate role; the certificate itself travels with the
/// connection.
#[derive(Debug, PartialEq)]
pub struct Certificate {
    pub name: String,
    pub mount_path: String,
}

impl View for Certificate {
    type V = CertificateView;

    open spec fn view(&self) -> CertificateView {
        CertificateView { name: self.name@, mount_path: self.mount_path@ }
    }
}

impl Clone for Certificate {
    fn clone(&self) -> (result: Self)
        ensures
            result@ == self@,
    {
        Certificate { name: self.name.clone(), mount_path: self.mount_path.clone() }
    }
}

impl Certificate {
    /// Makes the credential from its parts; without a mount path it logs in
    /// at `cert`.
    pub fn new(name: String, mount_path: Option<String>) -> (result: Self)
        ensures
            result@ == CertificateView::new(name@, mount_path.deep_view()),
    {
        Certificate {
            name,
            mount_path: match mount_path {
                Some(path) => path,
                None => "cert".to_owned(),
            },
        }
    }
}

} // verus!
