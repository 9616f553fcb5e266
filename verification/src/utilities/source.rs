use crate::utilities::snapshot::Snapshot;
use crate::vault::client::{resolve, result_view, VaultError};
use vstd::prelude::*;

verus! {

/// The mathematical model of a [`Source`]: where a secret comes from, with
/// every string taken as a sequence of characters.
pub enum SourceView {
    Value(Seq<char>),
    FilePath(Seq<char>),
}

impl SourceView {
    /// The path a watcher has to monitor: present exactly for a file-backed source.
    pub open spec fn path(self) -> Option<Seq<char>> {
        match self {
            SourceView::Value(_) => None,
            SourceView::FilePath(path) => Some(path),
        }
    }
}

/// The origin of a secret: an inline value, or a file that is read again
/// every time the secret is needed.
#[derive(Debug, PartialEq)]
pub enum Source {
    Value(String),
    FilePath(String),
}

impl View for Source {
    type V = SourceView;

    open spec fn view(&self) -> SourceView {
        match self {
            Source::Value(value) => SourceView::Value(value@),
            Source::FilePath(path) => SourceView::FilePath(path@),
        }
    }
}

impl DeepView for Source {
    type V = SourceView;

    open spec fn deep_view(&self) -> SourceView {
        self@
    }
}

impl Clone for Source {
    fn clone(&self) -> (result: Self)
        ensures
            result@ == self@,
    {
        match self {
            Source::Value(value) => Source::Value(value.clone()),
            Source::FilePath(path) => Source::FilePath(path.clone()),
        }
    }
}

impl Source {
    /// Returns the path of a file-backed source, and nothing for an inline value.
    pub fn path(&self) -> (result: Option<String>)
        ensures
            result.deep_view() == self@.path(),
    {
        match self {
            Source::FilePath(path) => Some(path.clone()),
            Source::Value(_) => None,
        }
    }

    /// Returns the secret as it reads now: an inline value as it stands,
    /// and for a file what `files` holds under its path. Nothing is kept
    /// from one call to the next, so a rewritten file is seen at once. A
    /// file that `files` does not hold could not be read, and fails with
    /// `SourceUnavailable`.
    pub fn value(&self, files: &Snapshot) -> (result: Result<String, VaultError>)
        ensures
            result_view(result) == resolve(self@, files@),
    {
        match self {
            Source::Value(value) => Ok(value.clone()),
            Source::FilePath(path) => match files.var(path.as_str()) {
                Some(contents) => Ok(contents),
                None => Err(VaultError::SourceUnavailable { path: path.clone() }),
            },
        }
    }
}

} // verus!
