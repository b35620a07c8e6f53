//! String utilities shared by the record builder and the correlator:
//! character-exact string equality and "suffix after the last separator"
//! (used both for a filename's type tag, after the last `.`, and for a
//! path's base name, after the last `/`).

use vstd::prelude::*;

verus! {

/// Index of the last occurrence of `sep` in `s`, or -1 if `sep` does not occur.
pub open spec fn last_sep_index(s: Seq<char>, sep: char) -> int
    decreases s.len(),
{
    if s.len() == 0 {
        -1
    } else if s[s.len() - 1] == sep {
        s.len() - 1
    } else {
        last_sep_index(s.drop_last(), sep)
    }
}

/// The suffix of `s` strictly after the last occurrence of `sep`;
/// all of `s` when `sep` does not occur.
pub open spec fn suffix_after_last(s: Seq<char>, sep: char) -> Seq<char> {
    s.subrange(last_sep_index(s, sep) + 1, s.len() as int)
}

/// If `sep` occurs at `i` and nowhere after, then `i` is the last occurrence.
pub proof fn lemma_last_sep_index_at(s: Seq<char>, sep: char, i: int)
    requires
        0 <= i < s.len(),
        s[i] == sep,
        forall|k: int| i < k < s.len() ==> s[k] != sep,
    ensures
        last_sep_index(s, sep) == i,
    decreases s.len(),
{
    if i == s.len() - 1 {
    } else {
        lemma_last_sep_index_at(s.drop_last(), sep, i);
    }
}

/// If `sep` occurs nowhere in `s`, the last occurrence is -1.
pub proof fn lemma_last_sep_index_none(s: Seq<char>, sep: char)
    requires
        forall|k: int| 0 <= k < s.len() ==> s[k] != sep,
    ensures
        last_sep_index(s, sep) == -1,
    decreases s.len(),
{
    if s.len() > 0 {
        lemma_last_sep_index_none(s.drop_last(), sep);
    }
}

/// Character-exact equality of two string slices.
pub fn str_eq(a: &str, b: &str) -> (r: bool)
    ensures
        r == (a@ == b@),
{
    let alen = a.unicode_len();
    let blen = b.unicode_len();
    if alen != blen {
        assert(a@ != b@) by {
            assert(a@.len() != b@.len());
        }
        return false;
    }
    let mut i: usize = 0;
    while i < alen
        invariant
            alen == a@.len(),
            alen == b@.len(),
            0 <= i <= alen,
            forall|k: int| 0 <= k < i ==> a@[k] == b@[k],
        decreases alen - i,
    {
        if a.get_char(i) != b.get_char(i) {
            return false;
        }
        i = i + 1;
    }
    proof {
        assert(a@ =~= b@);
    }
    true
}

/// The suffix of `s` after the last occurrence of `sep`, as a fresh `String`;
/// all of `s` when `sep` does not occur.
pub fn suffix_after_last_str(s: &str, sep: char) -> (t: String)
    ensures
        t@ == suffix_after_last(s@, sep),
{
    let n = s.unicode_len();
    let mut j: usize = n;
    while j > 0
        invariant
            n == s@.len(),
            0 <= j <= n,
            forall|k: int| j <= k < n ==> s@[k] != sep,
        decreases j,
    {
        if s.get_char(j - 1) == sep {
            proof {
                lemma_last_sep_index_at(s@, sep, j - 1);
            }
            let res = s.substring_char(j, n).to_owned();
            return res;
        }
        j = j - 1;
    }
    proof {
        lemma_last_sep_index_none(s@, sep);
        assert(suffix_after_last(s@, sep) =~= s@);
    }
    s.to_owned()
}

} // verus!
