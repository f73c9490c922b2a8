//! Character-level helpers: ASCII case folding, character-wise string
//! comparison, and locating the last occurrence of a character.

use vstd::prelude::*;
use vstd::string::StrSliceExecFns;

verus! {

/// ASCII lower-casing of a single character; everything outside
/// `'A'..='Z'` is left unchanged.
pub open spec fn lower_char(c: char) -> char {
    if 'A' <= c && c <= 'Z' {
        ((c as u8) + 32) as char
    } else {
        c
    }
}

/// ASCII lower-casing of a character sequence.
pub open spec fn lower(s: Seq<char>) -> Seq<char> {
    s.map_values(|c: char| lower_char(c))
}

/// Executable counterpart of `lower_char`.
pub fn lower_char_exec(c: char) -> (r: char)
    ensures
        r == lower_char(c),
{
    if 'A' <= c && c <= 'Z' {
        ((c as u8) + 32) as char
    } else {
        c
    }
}

/// Lower-casing a sequence twice changes nothing beyond the first pass.
pub proof fn lemma_lower_idempotent(s: Seq<char>)
    ensures
        lower(lower(s)) =~= lower(s),
{
    assert forall|i: int| 0 <= i < s.len() implies lower(lower(s))[i] == lower(s)[i] by {
        assert(lower_char(lower_char(s[i])) == lower_char(s[i]));
    }
}

/// Character-wise equality of two string slices.
pub fn eq_chars(s: &str, t: &str) -> (r: bool)
    ensures
        r == (s@ == t@),
{
    let n1 = s.unicode_len();
    let n2 = t.unicode_len();
    if n1 != n2 {
        return false;
    }
    let mut i: usize = 0;
    while i < n1
        invariant
            i <= n1,
            n1 == s@.len(),
            n1 == t@.len(),
            forall|j: int| 0 <= j < i ==> s@[j] == t@[j],
        decreases n1 - i,
    {
        if s.get_char(i) != t.get_char(i) {
            return false;
        }
        i += 1;
    }
    proof {
        assert(s@ =~= t@);
    }
    true
}

/// Equality of a string slice, folded to ASCII lower case, against a
/// (lower-case) string slice.
pub fn eq_lowered(s: &str, t: &str) -> (r: bool)
    ensures
        r == (lower(s@) == t@),
{
    let n1 = s.unicode_len();
    let n2 = t.unicode_len();
    if n1 != n2 {
        proof {
            assert(lower(s@).len() == s@.len());
        }
        return false;
    }
    let mut i: usize = 0;
    while i < n1
        invariant
            i <= n1,
            n1 == s@.len(),
            n1 == t@.len(),
            forall|j: int| 0 <= j < i ==> lower_char(s@[j]) == t@[j],
        decreases n1 - i,
    {
        if lower_char_exec(s.get_char(i)) != t.get_char(i) {
            proof {
                assert(lower(s@)[i as int] == lower_char(s@[i as int]));
            }
            return false;
        }
        i += 1;
    }
    proof {
        assert(lower(s@) =~= t@);
    }
    true
}

/// Index of the last occurrence of `c` in `s`, or `-1` when `c` does not
/// occur.
pub open spec fn last_occurrence(s: Seq<char>, c: char) -> int
    decreases s.len(),
{
    if s.len() == 0 {
        -1
    } else if s[s.len() - 1] == c {
        s.len() - 1
    } else {
        last_occurrence(s.drop_last(), c)
    }
}

/// What `last_occurrence` returns: either `-1` and `c` is absent, or the
/// position of a `c` that no later position repeats.
pub proof fn lemma_last_occurrence(s: Seq<char>, c: char)
    ensures
        -1 <= last_occurrence(s, c) < s.len(),
        last_occurrence(s, c) == -1 ==> forall|j: int| 0 <= j < s.len() ==> s[j] != c,
        last_occurrence(s, c) >= 0 ==> s[last_occurrence(s, c)] == c,
        forall|j: int| last_occurrence(s, c) < j < s.len() ==> s[j] != c,
    decreases s.len(),
{
    if s.len() == 0 {
    } else if s[s.len() - 1] == c {
    } else {
        lemma_last_occurrence(s.drop_last(), c);
        assert forall|j: int| 0 <= j < s.len() - 1 implies s.drop_last()[j] == s[j] by {}
    }
}

/// `last_occurrence` is the only index with the properties above.
pub proof fn lemma_last_occurrence_is(s: Seq<char>, c: char, k: int)
    requires
        0 <= k < s.len(),
        s[k] == c,
        forall|j: int| k < j < s.len() ==> s[j] != c,
    ensures
        last_occurrence(s, c) == k,
{
    lemma_last_occurrence(s, c);
    if last_occurrence(s, c) < k {
    } else if last_occurrence(s, c) > k {
        assert(s[last_occurrence(s, c)] == c);
    }
}

/// `last_occurrence` is `-1` exactly when `c` is absent.
pub proof fn lemma_last_occurrence_none(s: Seq<char>, c: char)
    requires
        forall|j: int| 0 <= j < s.len() ==> s[j] != c,
    ensures
        last_occurrence(s, c) == -1,
{
    lemma_last_occurrence(s, c);
    if last_occurrence(s, c) >= 0 {
        assert(s[last_occurrence(s, c)] == c);
    }
}

/// Position of the last occurrence of `c` within `s[from..]`, as an index
/// into `s` itself.
pub fn last_occurrence_from(s: &str, c: char, from: usize) -> (r: Option<usize>)
    requires
        from <= s@.len(),
    ensures
        match r {
            Some(k) => from <= k < s@.len() && s@[k as int] == c && (forall|j: int|
                k < j < s@.len() ==> s@[j] != c),
            None => forall|j: int| from <= j < s@.len() ==> s@[j] != c,
        },
{
    let n = s.unicode_len();
    let mut i: usize = n;
    while i > from
        invariant
            from <= i <= n,
            n == s@.len(),
            forall|j: int| i <= j < n ==> s@[j] != c,
        decreases i,
    {
        if s.get_char(i - 1) == c {
            return Some(i - 1);
        }
        i -= 1;
    }
    None
}

} // verus!

