use crate::utilities::date::{from_iso_string_to_epoch, iso_epoch};
use crate::utilities::decimal::{i64_to_decimal, signed_decimal};
use crate::vault::client::{result_view, VaultError, VaultErrorView};
use vstd::prelude::*;

verus! {

/// The position of the newest of some versions, each given by the marker
/// of its creation: the first position that holds the greatest marker.
pub open spec fn latest(markers: Seq<int>) -> int
    decreases markers.len(),
{
    if markers.len() <= 1 {
        0
    } else {
        let prior = latest(markers.drop_last());
        if markers.last() > markers[prior] {
            markers.len() - 1
        } else {
            prior
        }
    }
}

/// The newest version is one of the versions, no version is newer than
/// it, and every version before it is older: markers are compared as
/// numbers, and of several versions of one age the first is taken.
pub proof fn lemma_latest_is_first_maximum(markers: Seq<int>)
    requires
        markers.len() > 0,
    ensures
        0 <= latest(markers) < markers.len(),
        forall|i: int| 0 <= i < markers.len() ==> #[trigger] markers[i] <= markers[latest(markers)],
        forall|i: int| 0 <= i < latest(markers) ==> #[trigger] markers[i] < markers[latest(markers)],
    decreases markers.len(),
{
    if markers.len() > 1 {
        let shorter = markers.drop_last();
        lemma_latest_is_first_maximum(shorter);
        assert forall|i: int| 0 <= i < markers.len() implies #[trigger] markers[i] <= markers[latest(
            markers,
        )] by {
            if i < shorter.len() {
                assert(shorter[i] == markers[i]);
            }
        }
        assert forall|i: int| 0 <= i < latest(markers) implies #[trigger] markers[i] < markers[latest(
            markers,
        )] by {
            assert(shorter[i] == markers[i]);
        }
    }
}

/// The mathematical model of [`KeyInfo`].
pub struct KeyInfoView {
    pub id: Seq<char>,
    pub version: Seq<char>,
}

/// The version of the key that the backend encrypts with: its label, and
/// as its identifier the marker of its creation, written in decimal.
#[derive(Debug, PartialEq)]
pub struct KeyInfo {
    pub id: String,
    pub version: String,
}

impl View for KeyInfo {
    type V = KeyInfoView;

    open spec fn view(&self) -> KeyInfoView {
        KeyInfoView { id: self.id@, version: self.version@ }
    }
}

impl Clone for KeyInfo {
    fn clone(&self) -> (result: Self)
        ensures
            result@ == self@,
    {
        KeyInfo { id: self.id.clone(), version: self.version.clone() }
    }
}

/// The mathematical model of [`ReadPublicKeyEntry`].
pub struct ReadPublicKeyEntryView {
    pub creation_time: Seq<char>,
    pub name: Seq<char>,
    pub public_key: Seq<char>,
}

/// What the backend reports of one version of an asymmetric key.
#[derive(Debug, PartialEq)]
pub struct ReadPublicKeyEntry {
    pub creation_time: String,
    pub name: String,
    pub public_key: String,
}

impl View for ReadPublicKeyEntry {
    type V = ReadPublicKeyEntryView;

    open spec fn view(&self) -> ReadPublicKeyEntryView {
        ReadPublicKeyEntryView {
            creation_time: self.creation_time@,
            name: self.name@,
            public_key: self.public_key@,
        }
    }
}

impl DeepView for ReadPublicKeyEntry {
    type V = ReadPublicKeyEntryView;

    open spec fn deep_view(&self) -> ReadPublicKeyEntryView {
        self@
    }
}

/// The mathematical model of [`ReadKeyData`].
pub enum ReadKeyDataView {
    Symmetric(Seq<(Seq<char>, u64)>),
    Asymmetric(Seq<(Seq<char>, ReadPublicKeyEntryView)>),
}

/// The versions of a key as the backend reports them, each under its
/// label: with the time of its creation in seconds since the epoch for a
/// symmetric key, with its public part for an asymmetric one.
#[derive(Debug, PartialEq)]
pub enum ReadKeyData {
    Symmetric(Vec<(String, u64)>),
    Asymmetric(Vec<(String, ReadPublicKeyEntry)>),
}

impl View for ReadKeyData {
    type V = ReadKeyDataView;

    open spec fn view(&self) -> ReadKeyDataView {
        match self {
            ReadKeyData::Symmetric(versions) => ReadKeyDataView::Symmetric(versions.deep_view()),
            ReadKeyData::Asymmetric(versions) => ReadKeyDataView::Asymmetric(versions.deep_view()),
        }
    }
}

/// The markers of the versions of a symmetric key.
pub open spec fn symmetric_markers(versions: Seq<(Seq<char>, u64)>) -> Seq<int> {
    Seq::new(versions.len(), |i: int| versions[i].1 as int)
}

/// Whether the time of creation of every version can be read.
pub open spec fn all_dated(versions: Seq<(Seq<char>, ReadPublicKeyEntryView)>) -> bool {
    forall|i: int| 0 <= i < versions.len() ==> iso_epoch(#[trigger] versions[i].1.creation_time) is Some
}

/// The markers of the versions of an asymmetric key: the times of their
/// creation in seconds since the epoch.
pub open spec fn asymmetric_markers(versions: Seq<(Seq<char>, ReadPublicKeyEntryView)>) -> Seq<
    int,
> {
    Seq::new(versions.len(), |i: int| iso_epoch(versions[i].1.creation_time)->0 as int)
}

/// The newest version of a symmetric key. A key without versions has none.
pub open spec fn newest_symmetric(versions: Seq<(Seq<char>, u64)>) -> Result<
    KeyInfoView,
    VaultErrorView,
> {
    if versions.len() == 0 {
        Err(VaultErrorView::KeyVersionResolutionFailure)
    } else {
        let markers = symmetric_markers(versions);
        Ok(
            KeyInfoView {
                id: signed_decimal(markers[latest(markers)]),
                version: versions[latest(markers)].0,
            },
        )
    }
}

/// The newest version of an asymmetric key. A key without versions has
/// none, and neither has one with a version whose time of creation cannot
/// be read.
pub open spec fn newest_asymmetric(versions: Seq<(Seq<char>, ReadPublicKeyEntryView)>) -> Result<
    KeyInfoView,
    VaultErrorView,
> {
    if versions.len() == 0 || !all_dated(versions) {
        Err(VaultErrorView::KeyVersionResolutionFailure)
    } else {
        let markers = asymmetric_markers(versions);
        Ok(
            KeyInfoView {
                id: signed_decimal(markers[latest(markers)]),
                version: versions[latest(markers)].0,
            },
        )
    }
}

/// The newest version of a key.
pub open spec fn newest(data: ReadKeyDataView) -> Result<KeyInfoView, VaultErrorView> {
    match data {
        ReadKeyDataView::Symmetric(versions) => newest_symmetric(versions),
        ReadKeyDataView::Asymmetric(versions) => newest_asymmetric(versions),
    }
}

/// Returns the first position that holds the greatest of `markers`.
fn latest_index(markers: &Vec<i128>) -> (result: usize)
    requires
        markers@.len() > 0,
    ensures
        result == latest(Seq::new(markers@.len(), |i: int| markers@[i] as int)),
        result < markers@.len(),
{
    let ghost all = Seq::new(markers@.len(), |i: int| markers@[i] as int);
    let mut best: usize = 0;
    let mut i: usize = 1;
    proof {
        assert(all.subrange(0, 1).len() == 1);
    }
    while i < markers.len()
        invariant
            1 <= i <= markers@.len(),
            best < i,
            all == Seq::new(markers@.len(), |i: int| markers@[i] as int),
            best == latest(all.subrange(0, i as int)),
        decreases markers@.len() - i,
    {
        proof {
            let longer = all.subrange(0, i + 1);
            assert(longer.drop_last() =~= all.subrange(0, i as int));
            assert(longer.last() == markers@[i as int] as int);
            assert(longer[best as int] == markers@[best as int] as int);
        }
        if markers[i] > markers[best] {
            best = i;
        }
        i = i + 1;
    }
    proof {
        assert(all.subrange(0, i as int) =~= all);
    }
    best
}

impl KeyInfo {
    /// Returns the newest of the versions of a symmetric key: the first
    /// one with the greatest time of creation, the times compared as
    /// numbers. Its identifier is that time in decimal. Fails with
    /// `KeyVersionResolutionFailure` where there is no version.
    pub fn from_symmetric(versions: &Vec<(String, u64)>) -> (result: Result<KeyInfo, VaultError>)
        ensures
            result_view(result) == newest_symmetric(versions.deep_view()),
    {
        if versions.len() == 0 {
            return Err(VaultError::KeyVersionResolutionFailure);
        }
        let ghost model = versions.deep_view();
        let mut markers: Vec<i128> = Vec::new();
        let mut i: usize = 0;
        while i < versions.len()
            invariant
                i <= versions.len(),
                model == versions.deep_view(),
                markers@.len() == i,
                forall|j: int| 0 <= j < i ==> markers@[j] as int == model[j].1 as int,
            decreases versions.len() - i,
        {
            markers.push(versions[i].1 as i128);
            i = i + 1;
        }
        let best = latest_index(&markers);
        proof {
            assert(Seq::new(markers@.len(), |i: int| markers@[i] as int) =~= symmetric_markers(
                model,
            ));
        }
        Ok(KeyInfo { id: i64_or_u64_decimal(markers[best]), version: versions[best].0.clone() })
    }

    /// Returns the newest of the versions of an asymmetric key: the first
    /// one with the latest time of creation. Its identifier is that time
    /// in seconds since the epoch, in decimal. Fails with
    /// `KeyVersionResolutionFailure` where there is no version, or where
    /// the time of creation of some version cannot be read.
    pub fn from_asymmetric(versions: &Vec<(String, ReadPublicKeyEntry)>) -> (result: Result<
        KeyInfo,
        VaultError,
    >)
        ensures
            result_view(result) == newest_asymmetric(versions.deep_view()),
    {
        if versions.len() == 0 {
            return Err(VaultError::KeyVersionResolutionFailure);
        }
        let ghost model = versions.deep_view();
        let mut markers: Vec<i128> = Vec::new();
        let mut i: usize = 0;
        while i < versions.len()
            invariant
                i <= versions.len(),
                model == versions.deep_view(),
                markers@.len() == i,
                forall|j: int|
                    0 <= j < i ==> iso_epoch(#[trigger] model[j].1.creation_time) is Some,
                forall|j: int|
                    0 <= j < i ==> markers@[j] as int == iso_epoch(
                        model[j].1.creation_time,
                    )->0 as int,
            decreases versions.len() - i,
        {
            match from_iso_string_to_epoch(versions[i].1.creation_time.as_str()) {
                Ok(seconds) => {
                    markers.push(seconds as i128);
                },
                Err(_) => {
                    proof {
                        assert(model[i as int].1.creation_time == versions[i as int].1.creation_time@);
                        assert(!all_dated(model));
                    }
                    return Err(VaultError::KeyVersionResolutionFailure);
                },
            }
            i = i + 1;
        }
        let best = latest_index(&markers);
        proof {
            assert(all_dated(model));
            assert(Seq::new(markers@.len(), |i: int| markers@[i] as int) =~= asymmetric_markers(
                model,
            ));
        }
        Ok(KeyInfo { id: i64_or_u64_decimal(markers[best]), version: versions[best].0.clone() })
    }

    /// Returns the newest version of a key, as `from_symmetric` and
    /// `from_asymmetric` do for the two kinds of key.
    pub fn from_key_data(data: &ReadKeyData) -> (result: Result<KeyInfo, VaultError>)
        ensures
            result_view(result) == newest(data@),
    {
        match data {
            ReadKeyData::Symmetric(versions) => Self::from_symmetric(versions),
            ReadKeyData::Asymmetric(versions) => Self::from_asymmetric(versions),
        }
    }
}

/// Writes a marker in decimal.
fn i64_or_u64_decimal(marker: i128) -> (result: String)
    requires
        i64::MIN <= marker <= u64::MAX,
    ensures
        result@ == signed_decimal(marker as int),
{
    if marker < 0 {
        i64_to_decimal(marker as i64)
    } else {
        crate::utilities::decimal::u64_to_decimal(marker as u64)
    }
}

} // verus!
