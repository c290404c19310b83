//! Character-level string operations: finding and splitting on a separator,
//! and character-for-character equality.

use vstd::prelude::*;
use vstd::string::StrSliceExecFns;

verus! {

/// `i` is the index of the first occurrence of `c` in `s`.
pub open spec fn is_first_at(s: Seq<char>, c: char, i: int) -> bool {
    &&& 0 <= i < s.len()
    &&& s[i] == c
    &&& forall|j: int| 0 <= j < i ==> s[j] != c
}

/// `c` occurs somewhere in `s`.
pub open spec fn contains_char(s: Seq<char>, c: char) -> bool {
    exists|i: int| is_first_at(s, c, i)
}

/// The index of the first occurrence of `c` in `s`; meaningful only when
/// `contains_char(s, c)` holds.
pub open spec fn first_index(s: Seq<char>, c: char) -> int {
    choose|i: int| is_first_at(s, c, i)
}

/// Splits `s` at the first occurrence of `sep`: the part before and the part
/// after, the separator itself belonging to neither. `None` when `sep` does
/// not occur in `s`.
pub open spec fn split_first(s: Seq<char>, sep: char) -> Option<(Seq<char>, Seq<char>)> {
    if contains_char(s, sep) {
        let i = first_index(s, sep);
        Some((s.subrange(0, i), s.subrange(i + 1, s.len() as int)))
    } else {
        None
    }
}

/// A character has a first occurrence exactly when it occurs at all.
pub proof fn lemma_contains_char_iff(s: Seq<char>, c: char)
    ensures
        contains_char(s, c) <==> exists|i: int| 0 <= i < s.len() && s[i] == c,
    decreases s.len(),
{
    if exists|i: int| 0 <= i < s.len() && s[i] == c {
        let i = choose|i: int| 0 <= i < s.len() && s[i] == c;
        if s[0] == c {
            assert(is_first_at(s, c, 0));
        } else {
            assert(0 <= i - 1 < s.drop_first().len() && s.drop_first()[i - 1] == c);
            lemma_contains_char_iff(s.drop_first(), c);
            let k = first_index(s.drop_first(), c);
            assert(is_first_at(s.drop_first(), c, k));
            assert(forall|j: int| 0 <= j < k + 1 ==> s[j] != c) by {
                assert(forall|j: int| 1 <= j < k + 1 ==> s[j] == s.drop_first()[j - 1]);
            }
            assert(is_first_at(s, c, k + 1));
        }
    }
}

/// The index of the first occurrence of `c` in `s`, if any.
pub fn find_char(s: &str, c: char) -> (r: Option<usize>)
    ensures
        match r {
            Some(i) => is_first_at(s@, c, i as int),
            None => !contains_char(s@, c),
        },
{
    let n = s.unicode_len();
    let mut i: usize = 0;
    while i < n
        invariant
            n == s@.len(),
            i <= n,
            forall|j: int| 0 <= j < i ==> s@[j] != c,
        decreases n - i,
    {
        if s.get_char(i) == c {
            return Some(i);
        }
        i = i + 1;
    }
    None
}

/// Splits `s` at the first occurrence of `sep`, which is removed.
pub fn split_at_char<'a>(s: &'a str, sep: char) -> (r: Option<(&'a str, &'a str)>)
    ensures
        match r {
            Some(parts) => split_first(s@, sep) == Some((parts.0@, parts.1@)),
            None => split_first(s@, sep) is None,
        },
{
    let n = s.unicode_len();
    match find_char(s, sep) {
        Some(i) => {
            let head = s.substring_char(0, i);
            let tail = s.substring_char(i + 1, n);
            proof {
                assert(contains_char(s@, sep));
                assert(is_first_at(s@, sep, first_index(s@, sep)));
                assert(first_index(s@, sep) == i as int);
            }
            Some((head, tail))
        },
        None => None,
    }
}

/// Character-for-character equality of two strings.
pub fn str_eq(a: &str, b: &str) -> (r: bool)
    ensures
        r == (a@ == b@),
{
    let na = a.unicode_len();
    let nb = b.unicode_len();
    if na != nb {
        return false;
    }
    let mut i: usize = 0;
    while i < na
        invariant
            na == a@.len(),
            nb == b@.len(),
            na == nb,
            i <= na,
            forall|j: int| 0 <= j < i ==> a@[j] == b@[j],
        decreases na - i,
    {
        if a.get_char(i) != b.get_char(i) {
            return false;
        }
        i = i + 1;
    }
    proof {
        assert(a@ =~= b@);
    }
    true
}

/// Relies on `String::push`: appends exactly the given character at the end.
#[verifier::external_body]
pub(crate) fn push_char(s: &mut String, c: char)
    ensures
        final(s)@ == old(s)@.push(c),
{
    s.push(c);
}

} // verus!
