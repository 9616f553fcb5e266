use convert_case::{Case, Casing};
use vstd::prelude::*;

verus! {

/// What `convert_case` makes of a text when asked for snake case.
pub uninterp spec fn snake_case(text: Seq<char>) -> Seq<char>;

/// What the standard library makes of a text when asked for upper case.
pub uninterp spec fn upper_case(text: Seq<char>) -> Seq<char>;

/// Calls `convert_case`'s `Casing::to_case` with `Case::Snake`. Nothing is
/// proved of the conversion: its result is only given the name [`snake_case`].
#[verifier::external_body]
pub(crate) fn to_snake_case(text: &str) -> (result: String)
    ensures
        result@ == snake_case(text@),
{
    text.to_case(Case::Snake)
}

/// Calls `str::to_uppercase`. Nothing is proved of the conversion: its
/// result is only given the name [`upper_case`].
#[verifier::external_body]
pub(crate) fn to_upper_case(text: &str) -> (result: String)
    ensures
        result@ == upper_case(text@),
{
    text.to_uppercase()
}

/// Tells whether two texts hold the same characters.
pub fn same_text(left: &str, right: &str) -> (result: bool)
    ensures
        result == (left@ == right@),
{
    left.to_owned() == right.to_owned()
}

/// Whether `needle` occurs in `text` at the position `at`.
pub open spec fn occurs_at(text: Seq<char>, needle: Seq<char>, at: int) -> bool {
    0 <= at && at + needle.len() <= text.len() && text.subrange(at, at + needle.len()) == needle
}

/// Whether `needle` occurs somewhere in `text`.
pub open spec fn occurs_in(text: Seq<char>, needle: Seq<char>) -> bool {
    exists|at: int| occurs_at(text, needle, at)
}

/// Tells whether `needle` occurs in `text` at the position `at`.
fn found_at(text: &str, needle: &str, at: usize, text_len: usize, needle_len: usize) -> (result: bool)
    requires
        text_len == text@.len(),
        needle_len == needle@.len(),
        at + needle_len <= text_len,
    ensures
        result == occurs_at(text@, needle@, at as int),
{
    let mut i: usize = 0;
    while i < needle_len
        invariant
            i <= needle_len,
            text_len == text@.len(),
            needle_len == needle@.len(),
            at + needle_len <= text_len,
            forall|j: int| 0 <= j < i ==> text@[at + j] == needle@[j],
        decreases needle_len - i,
    {
        if text.get_char(at + i) != needle.get_char(i) {
            proof {
                let part = text@.subrange(at as int, at + needle_len);
                assert(part[i as int] == text@[at + i]);
            }
            return false;
        }
        i = i + 1;
    }
    proof {
        assert(text@.subrange(at as int, at + needle_len) =~= needle@);
    }
    true
}

/// Tells whether `needle` occurs somewhere in `text`.
pub fn contains(text: &str, needle: &str) -> (result: bool)
    ensures
        result == occurs_in(text@, needle@),
{
    let text_len = text.unicode_len();
    let needle_len = needle.unicode_len();
    if needle_len > text_len {
        return false;
    }
    if needle_len == 0 {
        proof {
            assert(text@.subrange(0, 0) =~= needle@);
            assert(occurs_at(text@, needle@, 0));
        }
        return true;
    }
    let last = text_len - needle_len;
    let mut at: usize = 0;
    while at <= last
        invariant
            at <= last + 1,
            last == text_len - needle_len,
            text_len == text@.len(),
            needle_len == needle@.len(),
            0 < needle_len <= text_len,
            forall|k: int| 0 <= k < at ==> !occurs_at(text@, needle@, k),
        decreases last + 1 - at,
    {
        if found_at(text, needle, at, text_len, needle_len) {
            return true;
        }
        at = at + 1;
    }
    false
}

} // verus!
