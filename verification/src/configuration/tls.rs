use crate::utilities::environment::Environment;
use crate::utilities::snapshot::Snapshot;
use vstd::prelude::*;

verus! {

/// The mathematical model of [`DirectoryEntry`].
pub struct DirectoryEntryView {
    pub path: Seq<char>,
    pub is_file: bool,
}

/// One entry of a directory, as a listing of the directory gives it.
#[derive(Debug, PartialEq)]
pub struct DirectoryEntry {
    pub path: String,
    pub is_file: bool,
}

impl View for DirectoryEntry {
    type V = DirectoryEntryView;

    open spec fn view(&self) -> DirectoryEntryView {
        DirectoryEntryView { path: self.path@, is_file: self.is_file }
    }
}

impl DeepView for DirectoryEntry {
    type V = DirectoryEntryView;

    open spec fn deep_view(&self) -> DirectoryEntryView {
        self@
    }
}

/// The paths of the files among the entries of a directory, in their
/// order. An entry that is no file is left out, and so is one without a path.
pub open spec fn files_of(listing: Seq<DirectoryEntryView>) -> Seq<Seq<char>>
    decreases listing.len(),
{
    if listing.len() == 0 {
        Seq::empty()
    } else if listing.last().is_file && listing.last().path.len() > 0 {
        files_of(listing.drop_last()).push(listing.last().path)
    } else {
        files_of(listing.drop_last())
    }
}

/// The mathematical model of [`TlsConfiguration`].
pub struct TlsConfigurationView {
    pub cert: Option<Seq<char>>,
    pub key: Option<Seq<char>>,
    pub ca: Option<Seq<char>>,
    pub directory: Option<Seq<char>>,
}

impl TlsConfigurationView {
    /// The configuration that an environment asks for.
    pub open spec fn from_env(env: Map<Seq<char>, Seq<char>>) -> TlsConfigurationView {
        TlsConfigurationView {
            directory: Environment::VaultCaPath.lookup(env),
            cert: Environment::VaultClientCert.lookup(env),
            key: Environment::VaultClientKey.lookup(env),
            ca: Environment::VaultCaCert.lookup(env),
        }
    }

    /// The certificates found in the configured directory, given its
    /// listing: none where no directory is configured.
    pub open spec fn certs_from_dir(self, listing: Seq<DirectoryEntryView>) -> Seq<Seq<char>> {
        if self.directory is Some {
            files_of(listing)
        } else {
            Seq::empty()
        }
    }

    /// The certificates of the authorities to trust: those found in the
    /// configured directory, and after them the configured certificate,
    /// unless the directory has given it already.
    pub open spec fn certs(self, listing: Seq<DirectoryEntryView>) -> Seq<Seq<char>> {
        let found = self.certs_from_dir(listing);
        match self.ca {
            Some(path) => if found.contains(path) {
                found
            } else {
                found.push(path)
            },
            None => found,
        }
    }

    /// The client's identity, given what was read of its certificate and
    /// of its key: the two one after the other, where both are configured
    /// and both were read.
    pub open spec fn identity(self, cert: Option<Seq<u8>>, key: Option<Seq<u8>>) -> Option<
        Seq<u8>,
    > {
        if self.cert is Some && self.key is Some && cert is Some && key is Some {
            Some(cert->0 + key->0)
        } else {
            None
        }
    }
}

/// The certificates to trust the backend by, and the certificate and key
/// that the client shows to it.
#[derive(Debug, PartialEq)]
pub struct TlsConfiguration {
    pub cert: Option<String>,
    pub key: Option<String>,
    pub ca: Option<String>,
    pub directory: Option<String>,
}

impl View for TlsConfiguration {
    type V = TlsConfigurationView;

    open spec fn view(&self) -> TlsConfigurationView {
        TlsConfigurationView {
            cert: self.cert.deep_view(),
            key: self.key.deep_view(),
            ca: self.ca.deep_view(),
            directory: self.directory.deep_view(),
        }
    }
}

/// Returns a copy of a text that may be missing.
fn clone_option(text: &Option<String>) -> (result: Option<String>)
    ensures
        result.deep_view() == text.deep_view(),
{
    match text {
        Some(text) => Some(text.clone()),
        None => None,
    }
}

impl Clone for TlsConfiguration {
    fn clone(&self) -> (result: Self)
        ensures
            result@ == self@,
    {
        TlsConfiguration {
            cert: clone_option(&self.cert),
            key: clone_option(&self.key),
            ca: clone_option(&self.ca),
            directory: clone_option(&self.directory),
        }
    }
}

impl TlsConfiguration {
    /// Reads the configuration from the environment `env`.
    pub fn from_env(env: &Snapshot) -> (result: Self)
        ensures
            result@ == TlsConfigurationView::from_env(env@),
    {
        TlsConfiguration {
            directory: Environment::VaultCaPath.get(env),
            cert: Environment::VaultClientCert.get(env),
            key: Environment::VaultClientKey.get(env),
            ca: Environment::VaultCaCert.get(env),
        }
    }

    /// Returns the paths of the client's certificate and of its key, where
    /// both are configured: the two files to read for the identity.
    pub fn identity_files(&self) -> (result: Option<(String, String)>)
        ensures
            result.deep_view() == (if self@.cert is Some && self@.key is Some {
                Some((self@.cert->0, self@.key->0))
            } else {
                None
            }),
    {
        match &self.cert {
            Some(cert) => match &self.key {
                Some(key) => Some((cert.clone(), key.clone())),
                None => None,
            },
            None => None,
        }
    }

    /// Returns the client's identity in PEM, given what was read of its
    /// certificate and of its key: see [`TlsConfigurationView::identity`].
    pub fn identity(&self, cert: Option<Vec<u8>>, key: Option<Vec<u8>>) -> (result: Option<Vec<u8>>)
        ensures
            crate::utilities::encoding::bytes_view(result) == self@.identity(
                crate::utilities::encoding::bytes_view(cert),
                crate::utilities::encoding::bytes_view(key),
            ),
    {
        if self.cert.is_none() || self.key.is_none() {
            return None;
        }
        match cert {
            Some(mut raw_cert) => match key {
                Some(mut raw_key) => {
                    raw_cert.append(&mut raw_key);
                    Some(raw_cert)
                },
                None => None,
            },
            None => None,
        }
    }

    /// Returns the certificates found in the configured directory, given
    /// its listing: see [`TlsConfigurationView::certs_from_dir`].
    pub fn certs_from_dir(&self, listing: &Vec<DirectoryEntry>) -> (result: Vec<String>)
        ensures
            result.deep_view() == self@.certs_from_dir(listing.deep_view()),
    {
        let mut found: Vec<String> = Vec::new();
        if self.directory.is_none() {
            assert(found.deep_view() =~= Seq::empty());
            return found;
        }
        let ghost model = listing.deep_view();
        let mut i: usize = 0;
        proof {
            assert(model.subrange(0, 0) =~= Seq::empty());
            assert(found.deep_view() =~= Seq::empty());
        }
        while i < listing.len()
            invariant
                i <= listing.len(),
                model == listing.deep_view(),
                found.deep_view() == files_of(model.subrange(0, i as int)),
            decreases listing.len() - i,
        {
            let ghost before = found.deep_view();
            proof {
                let longer = model.subrange(0, i + 1);
                assert(longer.drop_last() =~= model.subrange(0, i as int));
                assert(longer.last() == listing[i as int]@);
            }
            if listing[i].is_file && !listing[i].path.as_str().is_empty() {
                found.push(listing[i].path.clone());
                proof {
                    assert(found.deep_view() =~= before.push(listing[i as int].path@));
                }
            }
            i = i + 1;
        }
        proof {
            assert(model.subrange(0, i as int) =~= model);
        }
        found
    }

    /// Returns the certificates of the authorities to trust, given the
    /// listing of the configured directory: see
    /// [`TlsConfigurationView::certs`]. No path is returned twice on
    /// account of the configured certificate.
    pub fn certs(&self, listing: &Vec<DirectoryEntry>) -> (result: Vec<String>)
        ensures
            result.deep_view() == self@.certs(listing.deep_view()),
    {
        let mut certs = self.certs_from_dir(listing);
        match &self.ca {
            Some(file_path) => {
                let ghost found = certs.deep_view();
                let mut present = false;
                let mut i: usize = 0;
                while i < certs.len()
                    invariant
                        i <= certs.len(),
                        found == certs.deep_view(),
                        present == exists|j: int| 0 <= j < i && found[j] == file_path@,
                    decreases certs.len() - i,
                {
                    if certs[i] == *file_path {
                        present = true;
                        proof {
                            assert(found[i as int] == file_path@);
                        }
                    }
                    i = i + 1;
                }
                proof {
                    if present {
                        let j = choose|j: int| 0 <= j < found.len() && found[j] == file_path@;
                        assert(found.contains(file_path@));
                    } else {
                        assert(!found.contains(file_path@));
                    }
                }
                if !present {
                    certs.push(file_path.clone());
                    proof {
                        assert(certs.deep_view() =~= found.push(file_path@));
                    }
                }
                certs
            },
            None => certs,
        }
    }
}

} // verus!
