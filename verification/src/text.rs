//! Character-level helpers for the string handling that the rest of the
//! library builds on: equality, suffix tests and single-character pushes,
//! all specified over `Seq<char>` views.

use vstd::prelude::*;
use vstd::string::StrSliceExecFns;

verus! {

/// Relies on String::push: it appends exactly the given character.
pub assume_specification[ String::push ](s: &mut String, c: char)
    ensures
        final(s)@ == old(s)@.push(c),
;

/// `suffix` sits at the very end of `text`.
pub open spec fn is_suffix_of(suffix: Seq<char>, text: Seq<char>) -> bool {
    suffix.len() <= text.len() && text.subrange(
        text.len() - suffix.len(),
        text.len() as int,
    ) == suffix
}

/// Character-for-character equality of two string slices.
pub fn str_eq(a: &str, b: &str) -> (r: bool)
    ensures
        r == (a@ == b@),
{
    let a_len = a.unicode_len();
    let b_len = b.unicode_len();
    if a_len != b_len {
        assert(a@ != b@);
        return false;
    }
    let mut i: usize = 0;
    while i < a_len
        invariant
            i <= a_len,
            a_len == a@.len(),
            a_len == b@.len(),
            forall|k: int| 0 <= k < i ==> a@[k] == b@[k],
        decreases a_len - i,
    {
        if a.get_char(i) != b.get_char(i) {
            return false;
        }
        i = i + 1;
    }
    assert(a@ =~= b@);
    true
}

/// Does `text` end in `suffix`?
pub fn str_ends_with(text: &str, suffix: &str) -> (r: bool)
    ensures
        r == is_suffix_of(suffix@, text@),
{
    let t_len = text.unicode_len();
    let s_len = suffix.unicode_len();
    if s_len > t_len {
        return false;
    }
    let off = t_len - s_len;
    let mut i: usize = 0;
    while i < s_len
        invariant
            i <= s_len,
            s_len <= t_len,
            off == t_len - s_len,
            t_len == text@.len(),
            s_len == suffix@.len(),
            forall|k: int| 0 <= k < i ==> text@[off + k] == suffix@[k],
        decreases s_len - i,
    {
        if text.get_char(off + i) != suffix.get_char(i) {
            assert(!is_suffix_of(suffix@, text@)) by {
                assert(text@.subrange(
                    text@.len() - suffix@.len(),
                    text@.len() as int,
                )[i as int] == text@[off + i]);
            }
            return false;
        }
        i = i + 1;
    }
    assert(text@.subrange(text@.len() - suffix@.len(), text@.len() as int) =~= suffix@);
    true
}

} // verus!
