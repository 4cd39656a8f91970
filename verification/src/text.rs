//! Character-level text primitives: ASCII case folding, Unicode whitespace
//! trimming, substring matching and searching, all specified over `Seq<char>`
//! views and implemented as verified scans.

use vstd::prelude::*;

verus! {

/// The characters `str::trim` removes: the Unicode `White_Space` set.
pub open spec fn is_space_char(c: char) -> bool {
    c == '\u{0009}' || c == '\u{000A}' || c == '\u{000B}' || c == '\u{000C}'
        || c == '\u{000D}' || c == ' ' || c == '\u{0085}' || c == '\u{00A0}'
        || c == '\u{1680}' || c == '\u{2000}' || c == '\u{2001}' || c == '\u{2002}'
        || c == '\u{2003}' || c == '\u{2004}' || c == '\u{2005}' || c == '\u{2006}'
        || c == '\u{2007}' || c == '\u{2008}' || c == '\u{2009}' || c == '\u{200A}'
        || c == '\u{2028}' || c == '\u{2029}' || c == '\u{202F}' || c == '\u{205F}'
        || c == '\u{3000}'
}

pub fn space_char(c: char) -> (space: bool)
    ensures
        space == is_space_char(c),
{
    c == '\u{0009}' || c == '\u{000A}' || c == '\u{000B}' || c == '\u{000C}'
        || c == '\u{000D}' || c == ' ' || c == '\u{0085}' || c == '\u{00A0}'
        || c == '\u{1680}' || c == '\u{2000}' || c == '\u{2001}' || c == '\u{2002}'
        || c == '\u{2003}' || c == '\u{2004}' || c == '\u{2005}' || c == '\u{2006}'
        || c == '\u{2007}' || c == '\u{2008}' || c == '\u{2009}' || c == '\u{200A}'
        || c == '\u{2028}' || c == '\u{2029}' || c == '\u{202F}' || c == '\u{205F}'
        || c == '\u{3000}'
}

/// ASCII-only case folding of one character, as `to_ascii_lowercase` does it.
pub open spec fn lower_char(c: char) -> char {
    if c == 'A' { 'a' } else if c == 'B' { 'b' } else if c == 'C' { 'c' }
    else if c == 'D' { 'd' } else if c == 'E' { 'e' } else if c == 'F' { 'f' }
    else if c == 'G' { 'g' } else if c == 'H' { 'h' } else if c == 'I' { 'i' }
    else if c == 'J' { 'j' } else if c == 'K' { 'k' } else if c == 'L' { 'l' }
    else if c == 'M' { 'm' } else if c == 'N' { 'n' } else if c == 'O' { 'o' }
    else if c == 'P' { 'p' } else if c == 'Q' { 'q' } else if c == 'R' { 'r' }
    else if c == 'S' { 's' } else if c == 'T' { 't' } else if c == 'U' { 'u' }
    else if c == 'V' { 'v' } else if c == 'W' { 'w' } else if c == 'X' { 'x' }
    else if c == 'Y' { 'y' } else if c == 'Z' { 'z' } else { c }
}

pub fn to_lower_char(c: char) -> (l: char)
    ensures
        l == lower_char(c),
{
    match c {
        'A' => 'a', 'B' => 'b', 'C' => 'c', 'D' => 'd', 'E' => 'e', 'F' => 'f',
        'G' => 'g', 'H' => 'h', 'I' => 'i', 'J' => 'j', 'K' => 'k', 'L' => 'l',
        'M' => 'm', 'N' => 'n', 'O' => 'o', 'P' => 'p', 'Q' => 'q', 'R' => 'r',
        'S' => 's', 'T' => 't', 'U' => 'u', 'V' => 'v', 'W' => 'w', 'X' => 'x',
        'Y' => 'y', 'Z' => 'z',
        _ => c,
    }
}

/// ASCII case folding of a whole sequence.
pub open spec fn lower_seq(s: Seq<char>) -> Seq<char> {
    Seq::new(s.len(), |i: int| lower_char(s[i]))
}

/// `pat` occurs in `hay` starting at position `i`.
pub open spec fn matches_at(hay: Seq<char>, pat: Seq<char>, i: int) -> bool {
    0 <= i && i + pat.len() <= hay.len() && hay.subrange(i, i + pat.len() as int) == pat
}

/// `pat` occurs somewhere in `hay`.
pub open spec fn contains_seq(hay: Seq<char>, pat: Seq<char>) -> bool {
    exists|i: int| matches_at(hay, pat, i)
}

/// `pat` (already lowercase) occurs in the case-folded `hay`.
pub open spec fn contains_ci(hay: Seq<char>, pat: Seq<char>) -> bool {
    contains_seq(lower_seq(hay), pat)
}

/// The position of the first occurrence of `pat` in `hay` at or after `i`.
pub open spec fn find_from(hay: Seq<char>, pat: Seq<char>, i: int) -> Option<int>
    decreases hay.len() - i,
{
    if i < 0 || i + pat.len() > hay.len() {
        None
    } else if pat.len() == 0 || matches_at(hay, pat, i) {
        Some(i)
    } else {
        find_from(hay, pat, i + 1)
    }
}

/// An empty pattern matches wherever it fits.
pub proof fn lemma_empty_pat_matches(hay: Seq<char>, pat: Seq<char>, i: int)
    requires
        pat.len() == 0,
        0 <= i <= hay.len(),
    ensures
        matches_at(hay, pat, i),
{
    assert(hay.subrange(i, i) =~= pat);
}

pub proof fn lemma_find_from_some(hay: Seq<char>, pat: Seq<char>, from: int, i: int)
    requires
        0 <= from <= i,
        matches_at(hay, pat, i),
        forall|k: int| from <= k < i ==> !matches_at(hay, pat, k),
    ensures
        find_from(hay, pat, from) == Some(i),
    decreases i - from,
{
    if from < i {
        if pat.len() == 0 {
            lemma_empty_pat_matches(hay, pat, from);
        } else {
            lemma_find_from_some(hay, pat, from + 1, i);
        }
    }
}

pub proof fn lemma_find_from_none(hay: Seq<char>, pat: Seq<char>, from: int)
    requires
        0 <= from,
        forall|k: int| from <= k ==> !matches_at(hay, pat, k),
    ensures
        find_from(hay, pat, from) is None,
    decreases hay.len() - from,
{
    if from + pat.len() <= hay.len() {
        if pat.len() == 0 {
            lemma_empty_pat_matches(hay, pat, from);
        } else {
            lemma_find_from_none(hay, pat, from + 1);
        }
    }
}

/// Wherever `find_from` reports a hit, the pattern indeed matches there and
/// nowhere earlier in the searched range.
pub proof fn lemma_find_from_spec(hay: Seq<char>, pat: Seq<char>, from: int)
    requires
        0 <= from,
    ensures
        match find_from(hay, pat, from) {
            Some(i) => from <= i && matches_at(hay, pat, i)
                && forall|k: int| from <= k < i ==> !matches_at(hay, pat, k),
            None => forall|k: int| from <= k ==> !matches_at(hay, pat, k),
        },
    decreases hay.len() - from,
{
    if from + pat.len() > hay.len() {
        assert forall|k: int| from <= k implies !matches_at(hay, pat, k) by {}
    } else if pat.len() == 0 {
        lemma_empty_pat_matches(hay, pat, from);
    } else if matches_at(hay, pat, from) {
    } else {
        lemma_find_from_spec(hay, pat, from + 1);
    }
}

/// Case-sensitive match test at one position.
pub fn str_matches_at(hay: &str, pat: &str, i: usize) -> (m: bool)
    requires
        i + pat@.len() <= hay@.len(),
    ensures
        m == matches_at(hay@, pat@, i as int),
{
    let hay_len = hay.unicode_len();
    let m_len = pat.unicode_len();
    let mut j: usize = 0;
    while j < m_len
        invariant
            0 <= j <= m_len,
            m_len == pat@.len(),
            hay_len == hay@.len(),
            i + m_len <= hay_len,
            forall|k: int| 0 <= k < j ==> hay@[i + k] == pat@[k],
        decreases m_len - j,
    {
        if hay.get_char(i + j) != pat.get_char(j) {
            proof {
                assert(hay@.subrange(i as int, i + m_len as int)[j as int] == hay@[i + j]);
            }
            return false;
        }
        j += 1;
    }
    proof {
        assert(hay@.subrange(i as int, i + m_len as int) =~= pat@);
    }
    true
}

/// Case-folding match test at one position: is `pat` (already lowercase)
/// at position `i` of the case-folded `hay`?
pub fn str_matches_at_ci(hay: &str, pat: &str, i: usize) -> (m: bool)
    requires
        i + pat@.len() <= hay@.len(),
    ensures
        m == matches_at(lower_seq(hay@), pat@, i as int),
{
    let hay_len = hay.unicode_len();
    let m_len = pat.unicode_len();
    let mut j: usize = 0;
    while j < m_len
        invariant
            0 <= j <= m_len,
            m_len == pat@.len(),
            hay_len == hay@.len(),
            i + m_len <= hay_len,
            forall|k: int| 0 <= k < j ==> lower_seq(hay@)[i + k] == pat@[k],
        decreases m_len - j,
    {
        if to_lower_char(hay.get_char(i + j)) != pat.get_char(j) {
            proof {
                assert(lower_seq(hay@).subrange(i as int, i + m_len as int)[j as int]
                    == lower_seq(hay@)[i + j]);
            }
            return false;
        }
        j += 1;
    }
    proof {
        assert(lower_seq(hay@).subrange(i as int, i + m_len as int) =~= pat@);
    }
    true
}

/// Case-sensitive containment.
pub fn str_contains(hay: &str, pat: &str) -> (found: bool)
    ensures
        found == contains_seq(hay@, pat@),
{
    let n = hay.unicode_len();
    let m = pat.unicode_len();
    if m > n {
        return false;
    }
    if m == 0 {
        proof {
            lemma_empty_pat_matches(hay@, pat@, 0);
        }
        return true;
    }
    let mut i: usize = 0;
    while i <= n - m
        invariant
            1 <= m <= n,
            n == hay@.len(),
            m == pat@.len(),
            0 <= i <= n - m + 1,
            forall|k: int| 0 <= k < i ==> !matches_at(hay@, pat@, k),
        decreases n - i,
    {
        if str_matches_at(hay, pat, i) {
            return true;
        }
        i += 1;
    }
    false
}

/// Containment of a lowercase `pat` in the case-folded `hay`.
pub fn str_contains_ci(hay: &str, pat: &str) -> (found: bool)
    ensures
        found == contains_ci(hay@, pat@),
{
    let n = hay.unicode_len();
    let m = pat.unicode_len();
    if m > n {
        return false;
    }
    if m == 0 {
        proof {
            lemma_empty_pat_matches(lower_seq(hay@), pat@, 0);
        }
        return true;
    }
    let mut i: usize = 0;
    while i <= n - m
        invariant
            1 <= m <= n,
            n == hay@.len(),
            m == pat@.len(),
            0 <= i <= n - m + 1,
            forall|k: int| 0 <= k < i ==> !matches_at(lower_seq(hay@), pat@, k),
        decreases n - i,
    {
        if str_matches_at_ci(hay, pat, i) {
            return true;
        }
        i += 1;
    }
    false
}

/// First occurrence of `pat` in `hay` at or after `from`.
pub fn str_find(hay: &str, pat: &str, from: usize) -> (r: Option<usize>)
    requires
        from <= hay@.len(),
    ensures
        match r {
            Some(j) => find_from(hay@, pat@, from as int) == Some(j as int)
                && from <= j && matches_at(hay@, pat@, j as int),
            None => find_from(hay@, pat@, from as int) is None,
        },
{
    let n = hay.unicode_len();
    let m = pat.unicode_len();
    if m > n {
        proof {
            assert forall|k: int| from <= k implies !matches_at(hay@, pat@, k) by {}
            lemma_find_from_none(hay@, pat@, from as int);
        }
        return None;
    }
    if m == 0 {
        proof {
            lemma_empty_pat_matches(hay@, pat@, from as int);
        }
        return Some(from);
    }
    let mut i: usize = from;
    while i <= n - m
        invariant
            from <= i,
            i <= n + 1,
            1 <= m <= n,
            n == hay@.len(),
            m == pat@.len(),
            forall|k: int| from <= k < i ==> !matches_at(hay@, pat@, k),
        decreases n - i,
    {
        if str_matches_at(hay, pat, i) {
            proof {
                lemma_find_from_some(hay@, pat@, from as int, i as int);
            }
            return Some(i);
        }
        i += 1;
    }
    proof {
        assert forall|k: int| from <= k implies !matches_at(hay@, pat@, k) by {
            if k < i {
            } else {
                assert(k + pat@.len() > hay@.len());
            }
        }
        lemma_find_from_none(hay@, pat@, from as int);
    }
    None
}

/// Character-for-character string equality.
pub fn str_eq(a: &str, b: &str) -> (eq: bool)
    ensures
        eq == (a@ == b@),
{
    let n = a.unicode_len();
    if n != b.unicode_len() {
        return false;
    }
    let mut i: usize = 0;
    while i < n
        invariant
            0 <= i <= n,
            n == a@.len(),
            n == b@.len(),
            forall|k: int| 0 <= k < i ==> a@[k] == b@[k],
        decreases n - i,
    {
        if a.get_char(i) != b.get_char(i) {
            return false;
        }
        i += 1;
    }
    proof {
        assert(a@ =~= b@);
    }
    true
}

/// How many leading whitespace characters `s` has.
pub open spec fn lead_spaces(s: Seq<char>) -> int
    decreases s.len(),
{
    if s.len() == 0 {
        0
    } else if !is_space_char(s[0]) {
        0
    } else {
        1 + lead_spaces(s.subrange(1, s.len() as int))
    }
}

/// How many trailing whitespace characters `s` has.
pub open spec fn trail_spaces(s: Seq<char>) -> int
    decreases s.len(),
{
    if s.len() == 0 {
        0
    } else if !is_space_char(s.last()) {
        0
    } else {
        1 + trail_spaces(s.drop_last())
    }
}

/// What `str::trim` leaves: `s` without leading and trailing whitespace.
pub open spec fn trim_seq(s: Seq<char>) -> Seq<char> {
    if lead_spaces(s) == s.len() {
        Seq::empty()
    } else {
        s.subrange(lead_spaces(s), s.len() - trail_spaces(s))
    }
}

/// The leading-space count is pinned by its two defining properties.
pub proof fn lemma_lead_spaces_unique(s: Seq<char>, i: int)
    requires
        0 <= i <= s.len(),
        forall|k: int| 0 <= k < i ==> is_space_char(s[k]),
        i < s.len() ==> !is_space_char(s[i]),
    ensures
        lead_spaces(s) == i,
    decreases i,
{
    if s.len() == 0 {
    } else if i == 0 {
    } else {
        let t = s.subrange(1, s.len() as int);
        assert forall|k: int| 0 <= k < i - 1 implies is_space_char(t[k]) by {
            assert(t[k] == s[k + 1]);
        }
        assert(i - 1 < t.len() ==> !is_space_char(t[i - 1]));
        lemma_lead_spaces_unique(t, i - 1);
    }
}

/// The trailing-space count is pinned by its two defining properties;
/// `b` is the position just past the kept region.
pub proof fn lemma_trail_spaces_unique(s: Seq<char>, b: int)
    requires
        0 <= b <= s.len(),
        forall|k: int| b <= k < s.len() ==> is_space_char(s[k]),
        b > 0 ==> !is_space_char(s[b - 1]),
    ensures
        trail_spaces(s) == s.len() - b,
    decreases s.len() - b,
{
    if s.len() == 0 {
    } else if b == s.len() {
    } else {
        let t = s.drop_last();
        assert forall|k: int| b <= k < t.len() implies is_space_char(t[k]) by {
            assert(t[k] == s[k]);
        }
        lemma_trail_spaces_unique(t, b);
    }
}

} // verus!
