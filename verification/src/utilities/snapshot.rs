use vstd::prelude::*;

verus! {

/// The map that a list of `(name, value)` entries stands for: a later entry
/// replaces an earlier one of the same name.
pub open spec fn entries_map(entries: Seq<(Seq<char>, Seq<char>)>) -> Map<Seq<char>, Seq<char>>
    decreases entries.len(),
{
    if entries.len() == 0 {
        Map::empty()
    } else {
        entries_map(entries.drop_last()).insert(entries.last().0, entries.last().1)
    }
}

/// A name that no entry from `from` onwards carries is bound exactly as it
/// is by the entries before `from`.
proof fn lemma_suffix_without_name(entries: Seq<(Seq<char>, Seq<char>)>, from: int, name: Seq<char>)
    requires
        0 <= from <= entries.len(),
        forall|j: int| from <= j < entries.len() ==> entries[j].0 != name,
    ensures
        entries_map(entries).contains_key(name) == entries_map(
            entries.subrange(0, from),
        ).contains_key(name),
        entries_map(entries).contains_key(name) ==> entries_map(entries)[name] == entries_map(
            entries.subrange(0, from),
        )[name],
    decreases entries.len() - from,
{
    if from == entries.len() {
        assert(entries.subrange(0, from) =~= entries);
    } else {
        let shorter = entries.drop_last();
        assert(shorter.subrange(0, from) =~= entries.subrange(0, from));
        lemma_suffix_without_name(shorter, from, name);
    }
}

/// A point-in-time copy of named string values: the process environment by
/// variable name, or the contents of files by path.
///
/// The library never reads the environment or the disk itself; its caller
/// takes the snapshot and hands it in.
#[derive(Debug)]
pub struct Snapshot {
    entries: Vec<(String, String)>,
}

impl View for Snapshot {
    type V = Map<Seq<char>, Seq<char>>;

    closed spec fn view(&self) -> Map<Seq<char>, Seq<char>> {
        entries_map(self.entries.deep_view())
    }
}

impl Snapshot {
    /// A snapshot in which no name is bound.
    pub fn new() -> (result: Self)
        ensures
            result@ == Map::<Seq<char>, Seq<char>>::empty(),
    {
        let result = Snapshot { entries: Vec::new() };
        assert(result.entries.deep_view() =~= Seq::empty());
        result
    }

    /// Binds `name` to `value`, replacing what it was bound to before.
    pub fn set(&mut self, name: &str, value: &str)
        ensures
            final(self)@ == old(self)@.insert(name@, value@),
    {
        self.entries.push((name.to_owned(), value.to_owned()));
        proof {
            let after = self.entries.deep_view();
            assert(after.drop_last() =~= old(self).entries.deep_view());
            assert(after.last() == (name@, value@));
        }
    }

    /// Returns what `name` is bound to, if anything.
    pub fn var(&self, name: &str) -> (result: Option<String>)
        ensures
            result.deep_view() == (if self@.contains_key(name@) {
                Some(self@[name@])
            } else {
                None
            }),
    {
        let wanted = name.to_owned();
        let ghost entries = self.entries.deep_view();
        let mut i: usize = self.entries.len();
        while i > 0
            invariant
                i <= self.entries.len(),
                entries == self.entries.deep_view(),
                wanted@ == name@,
                forall|j: int| i <= j < entries.len() ==> entries[j].0 != name@,
            decreases i,
        {
            i = i - 1;
            if self.entries[i].0 == wanted {
                proof {
                    lemma_suffix_without_name(entries, i + 1, name@);
                    let prefix = entries.subrange(0, i + 1);
                    assert(prefix.last() == entries[i as int]);
                    assert(entries[i as int] == (self.entries[i as int].0@, self.entries[i as int].1@));
                }
                return Some(self.entries[i].1.clone());
            }
        }
        proof {
            lemma_suffix_without_name(entries, 0, name@);
            assert(entries.subrange(0, 0) =~= Seq::empty());
        }
        None
    }
}

} // verus!
