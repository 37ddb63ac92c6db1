//! Character-level text helpers shared by the parsers and the classifier:
//! ASCII whitespace, ASCII case folding, and substring search.

use vstd::prelude::*;

verus! {

/// ASCII whitespace as it appears in OS command output: space, tab,
/// carriage return, newline.
pub open spec fn is_space(c: char) -> bool {
    c == ' ' || c == '\t' || c == '\r' || c == '\n'
}

pub fn char_is_space(c: char) -> (r: bool)
    ensures
        r == is_space(c),
{
    c == ' ' || c == '\t' || c == '\r' || c == '\n'
}

/// ASCII lowercasing of a single character; every other character is kept.
pub open spec fn lower_char(c: char) -> char {
    if 65 <= c as u32 && c as u32 <= 90 {
        ((c as u32 + 32) as u8) as char
    } else {
        c
    }
}

pub fn to_lower_char(c: char) -> (r: char)
    ensures
        r == lower_char(c),
{
    let u = c as u32;
    if 65 <= u && u <= 90 {
        ((u + 32) as u8) as char
    } else {
        c
    }
}

/// ASCII lowercasing of a whole character sequence.
pub open spec fn lower_seq(s: Seq<char>) -> Seq<char> {
    s.map_values(|c: char| lower_char(c))
}

/// The text, optionally lowercased: the one haystack shape the substring
/// search is specified against.
pub open spec fn fold_view(s: Seq<char>, fold: bool) -> Seq<char> {
    if fold {
        lower_seq(s)
    } else {
        s
    }
}

/// `pat` occurs in `hay` starting at position `i`.
pub open spec fn matches_at(hay: Seq<char>, pat: Seq<char>, i: int) -> bool {
    &&& 0 <= i
    &&& i + pat.len() <= hay.len()
    &&& forall|j: int| 0 <= j < pat.len() ==> hay[i + j] == pat[j]
}

/// `pat` occurs somewhere in `hay`.
pub open spec fn contains_seq(hay: Seq<char>, pat: Seq<char>) -> bool {
    exists|i: int| matches_at(hay, pat, i)
}

fn match_at_exec(hay: &str, pat: &str, fold: bool, i: usize) -> (r: bool)
    requires
        i + pat@.len() <= hay@.len(),
    ensures
        r == matches_at(fold_view(hay@, fold), pat@, i as int),
{
    let ghost h = fold_view(hay@, fold);
    assert(h.len() == hay@.len());
    let n = hay.unicode_len();
    let m = pat.unicode_len();
    assert(i + m <= n);
    let mut j: usize = 0;
    while j < m
        invariant
            i + pat@.len() <= hay@.len(),
            h == fold_view(hay@, fold),
            h.len() == hay@.len(),
            n == hay@.len(),
            m == pat@.len(),
            0 <= j <= m,
            forall|j2: int| 0 <= j2 < j ==> h[i + j2] == pat@[j2],
        decreases m - j,
    {
        let c0 = hay.get_char(i + j);
        let c = if fold {
            to_lower_char(c0)
        } else {
            c0
        };
        let p = pat.get_char(j);
        if c != p {
            assert(h[i + j] != pat@[j as int]);
            return false;
        }
        j += 1;
    }
    true
}

/// Substring search; with `fold` the haystack is searched as if lowercased,
/// so a lowercase pattern matches case-insensitively.
pub fn find_substring(hay: &str, pat: &str, fold: bool) -> (r: bool)
    ensures
        r == contains_seq(fold_view(hay@, fold), pat@),
{
    let ghost h = fold_view(hay@, fold);
    assert(h.len() == hay@.len());
    let n = hay.unicode_len();
    let m = pat.unicode_len();
    if m > n {
        assert(forall|i2: int| !matches_at(h, pat@, i2));
        return false;
    }
    let mut i: usize = 0;
    while i <= n - m
        invariant
            h == fold_view(hay@, fold),
            h.len() == hay@.len(),
            n == hay@.len(),
            m == pat@.len(),
            m <= n,
            0 <= i <= n - m + 1,
            forall|i2: int| 0 <= i2 < i ==> !matches_at(h, pat@, i2),
        decreases n - m + 1 - i,
    {
        if match_at_exec(hay, pat, fold, i) {
            return true;
        }
        i += 1;
    }
    assert forall|i2: int| !matches_at(h, pat@, i2) by {
        if matches_at(h, pat@, i2) {
            assert(0 <= i2 && i2 + pat@.len() <= h.len());
        }
    }
    false
}

/// Case-sensitive containment.
pub fn contains_str(hay: &str, pat: &str) -> (r: bool)
    ensures
        r == contains_seq(hay@, pat@),
{
    find_substring(hay, pat, false)
}

/// Case-insensitive containment: `pat` is expected already lowercase and is
/// looked for in the lowercased haystack.
pub fn contains_ci(hay: &str, pat: &str) -> (r: bool)
    ensures
        r == contains_seq(lower_seq(hay@), pat@),
{
    find_substring(hay, pat, true)
}

} // verus!
