//! Character-level helpers shared by the parsers: ASCII whitespace and
//! case folding, substring search, trimming, and conversion between
//! `&str` and `Vec<char>` so that the verified code can index text freely.

use vstd::prelude::*;
use vstd::std_specs::iter::IteratorSpec;

verus! {

broadcast use vstd::string::group_string_axioms;

/// ASCII whitespace, the set `str::trim` removes for ASCII text.
pub open spec fn is_ws_char(c: char) -> bool {
    c == ' ' || c == '\t' || c == '\n' || c == '\r' || c == '\u{000C}'
}

/// ASCII lower-casing of one character.
pub open spec fn lower_char(c: char) -> char {
    if 'A' <= c && c <= 'Z' {
        ((c as u8) + 32) as char
    } else {
        c
    }
}

/// ASCII lower-casing of a whole sequence.
pub open spec fn lower_seq(s: Seq<char>) -> Seq<char> {
    s.map_values(|c: char| lower_char(c))
}

/// The character sequences of a list of strings.
pub open spec fn names_view(l: Seq<String>) -> Seq<Seq<char>> {
    l.map_values(|s: String| s@)
}

/// The needle `n` occurs in `h` starting at position `i`.
pub open spec fn contains_at(h: Seq<char>, n: Seq<char>, i: int) -> bool {
    0 <= i && i + n.len() <= h.len() && h.subrange(i, i + n.len()) == n
}

/// The needle `n` occurs somewhere in `h` (`str::contains`).
pub open spec fn contains_seq(h: Seq<char>, n: Seq<char>) -> bool {
    exists|i: int| contains_at(h, n, i)
}

/// `h` ends with the suffix `n` (`str::ends_with`).
pub open spec fn ends_with_seq(h: Seq<char>, n: Seq<char>) -> bool {
    n.len() <= h.len() && h.subrange(h.len() - n.len(), h.len() as int) == n
}

/// Position `i` is the first occurrence of `c` in `s`.
pub open spec fn is_first_occurrence(s: Seq<char>, c: char, i: int) -> bool {
    &&& 0 <= i < s.len()
    &&& s[i] == c
    &&& forall|j: int| 0 <= j < i ==> s[j] != c
}

/// `c` occurs somewhere in `s`.
pub open spec fn has_char(s: Seq<char>, c: char) -> bool {
    exists|i: int| 0 <= i < s.len() && s[i] == c
}

/// The first occurrence of `c` in `s`, assuming there is one.
pub open spec fn first_occurrence(s: Seq<char>, c: char) -> int {
    choose|i: int| is_first_occurrence(s, c, i)
}

pub proof fn lemma_first_occurrence_unique(s: Seq<char>, c: char, i: int)
    requires
        is_first_occurrence(s, c, i),
    ensures
        first_occurrence(s, c) == i,
        has_char(s, c),
{
    let k = first_occurrence(s, c);
    assert(is_first_occurrence(s, c, k));
    if k < i {
        assert(s[k] != c);
    }
    if i < k {
        assert(s[i] != c);
    }
}

/// Number of leading whitespace characters of `s`.
pub open spec fn ws_prefix(s: Seq<char>) -> int
    decreases s.len(),
{
    if s.len() == 0 {
        0
    } else if is_ws_char(s[0]) {
        1 + ws_prefix(s.subrange(1, s.len() as int))
    } else {
        0
    }
}

/// Number of trailing whitespace characters of `s`.
pub open spec fn ws_suffix(s: Seq<char>) -> int
    decreases s.len(),
{
    if s.len() == 0 {
        0
    } else if is_ws_char(s[s.len() - 1]) {
        1 + ws_suffix(s.subrange(0, s.len() - 1))
    } else {
        0
    }
}

pub proof fn lemma_ws_prefix(s: Seq<char>)
    ensures
        0 <= ws_prefix(s) <= s.len(),
        forall|j: int| 0 <= j < ws_prefix(s) ==> is_ws_char(s[j]),
        ws_prefix(s) < s.len() ==> !is_ws_char(s[ws_prefix(s)]),
    decreases s.len(),
{
    if s.len() > 0 && is_ws_char(s[0]) {
        let t = s.subrange(1, s.len() as int);
        lemma_ws_prefix(t);
        assert forall|j: int| 0 <= j < ws_prefix(s) implies is_ws_char(s[j]) by {
            if j > 0 {
                assert(t[j - 1] == s[j]);
            }
        }
        if ws_prefix(s) < s.len() {
            assert(s[ws_prefix(s)] == t[ws_prefix(t)]);
        }
    }
}

pub proof fn lemma_ws_prefix_unique(s: Seq<char>, i: int)
    requires
        0 <= i <= s.len(),
        forall|j: int| 0 <= j < i ==> is_ws_char(s[j]),
        i < s.len() ==> !is_ws_char(s[i]),
    ensures
        ws_prefix(s) == i,
{
    lemma_ws_prefix(s);
    let p = ws_prefix(s);
    if p < i {
        assert(is_ws_char(s[p]));
    }
    if i < p {
        assert(is_ws_char(s[i]));
    }
}

pub proof fn lemma_ws_suffix(s: Seq<char>)
    ensures
        0 <= ws_suffix(s) <= s.len(),
        forall|j: int| s.len() - ws_suffix(s) <= j < s.len() ==> is_ws_char(s[j]),
        ws_suffix(s) < s.len() ==> !is_ws_char(s[s.len() - 1 - ws_suffix(s)]),
    decreases s.len(),
{
    if s.len() > 0 && is_ws_char(s[s.len() - 1]) {
        let t = s.subrange(0, s.len() - 1);
        lemma_ws_suffix(t);
        assert forall|j: int| s.len() - ws_suffix(s) <= j < s.len() implies is_ws_char(s[j]) by {
            if j < s.len() - 1 {
                assert(t[j] == s[j]);
            }
        }
        if ws_suffix(s) < s.len() {
            assert(s[s.len() - 1 - ws_suffix(s)] == t[t.len() - 1 - ws_suffix(t)]);
        }
    }
}

pub proof fn lemma_ws_suffix_unique(s: Seq<char>, k: int)
    requires
        0 <= k <= s.len(),
        forall|j: int| s.len() - k <= j < s.len() ==> is_ws_char(s[j]),
        k < s.len() ==> !is_ws_char(s[s.len() - 1 - k]),
    ensures
        ws_suffix(s) == k,
{
    lemma_ws_suffix(s);
    let p = ws_suffix(s);
    if p < k {
        assert(is_ws_char(s[s.len() - 1 - p]));
    }
    if k < p {
        assert(is_ws_char(s[s.len() - 1 - k]));
    }
}

/// `str::trim` for ASCII whitespace: drop the whitespace at both ends.
pub open spec fn trim_spec(s: Seq<char>) -> Seq<char> {
    if ws_prefix(s) == s.len() {
        Seq::empty()
    } else {
        s.subrange(ws_prefix(s), s.len() - ws_suffix(s))
    }
}

/// Collects the characters of a string slice into a vector.
pub fn to_char_vec(s: &str) -> (v: Vec<char>)
    ensures
        v@ == s@,
{
    let mut v: Vec<char> = Vec::new();
    let mut it = s.chars();
    loop
        invariant
            v@ + it.remaining() == s@,
            it.obeys_prophetic_iter_laws(),
            it.decrease() is Some,
        ensures
            v@ == s@,
        decreases it.decrease()->0,
    {
        match it.next() {
            Some(c) => {
                v.push(c);
            },
            None => {
                proof {
                    assert(v@ + it.remaining() =~= v@);
                }
                break ;
            },
        }
    }
    v
}

/// Builds the owned string whose characters are exactly `v`.
///
/// Relies on `String: FromIterator<char>` (`Iterator::collect`): the
/// resulting string holds the characters of the iterator in order.
#[verifier::external_body]
pub fn chars_to_string(v: &Vec<char>) -> (s: String)
    ensures
        s@ == v@,
{
    v.iter().collect()
}

/// Executable ASCII whitespace test.
pub fn is_ws(c: char) -> (r: bool)
    ensures
        r == is_ws_char(c),
{
    c == ' ' || c == '\t' || c == '\n' || c == '\r' || c == '\u{000C}'
}

/// Executable ASCII lower-casing of one character.
pub fn to_lower(c: char) -> (r: char)
    ensures
        r == lower_char(c),
{
    if 'A' <= c && c <= 'Z' {
        ((c as u8) + 32) as char
    } else {
        c
    }
}

/// ASCII lower-casing of a whole vector.
pub fn lower_vec(v: &Vec<char>) -> (r: Vec<char>)
    ensures
        r@ == lower_seq(v@),
{
    let mut r: Vec<char> = Vec::new();
    let mut i: usize = 0;
    while i < v.len()
        invariant
            i <= v.len(),
            r@.len() == i,
            forall|j: int| 0 <= j < i ==> r@[j] == lower_char(v@[j]),
        decreases v.len() - i,
    {
        r.push(to_lower(v[i]));
        i = i + 1;
    }
    proof {
        assert(r@ =~= lower_seq(v@));
    }
    r
}

/// Copies the range `[a, b)` of `v` into a fresh vector.
pub fn subvec(v: &Vec<char>, a: usize, b: usize) -> (r: Vec<char>)
    requires
        a <= b <= v@.len(),
    ensures
        r@ == v@.subrange(a as int, b as int),
{
    let mut r: Vec<char> = Vec::new();
    let mut i: usize = a;
    while i < b
        invariant
            a <= i <= b <= v@.len(),
            r@.len() == i - a,
            forall|j: int| 0 <= j < r@.len() ==> r@[j] == v@[a + j],
        decreases b - i,
    {
        r.push(v[i]);
        i = i + 1;
    }
    proof {
        assert(r@ =~= v@.subrange(a as int, b as int));
    }
    r
}

/// Character-wise equality of two vectors.
pub fn vec_eq(a: &Vec<char>, b: &Vec<char>) -> (r: bool)
    ensures
        r == (a@ == b@),
{
    if a.len() != b.len() {
        return false;
    }
    let mut i: usize = 0;
    while i < a.len()
        invariant
            i <= a.len(),
            a@.len() == b@.len(),
            forall|j: int| 0 <= j < i ==> a@[j] == b@[j],
        decreases a.len() - i,
    {
        if a[i] != b[i] {
            return false;
        }
        i = i + 1;
    }
    proof {
        assert(a@ =~= b@);
    }
    true
}

/// First occurrence of `c` in `v`, if any.
pub fn find_char(v: &Vec<char>, c: char) -> (r: Option<usize>)
    ensures
        match r {
            Some(i) => is_first_occurrence(v@, c, i as int) && first_occurrence(v@, c) == i
                && has_char(v@, c),
            None => !has_char(v@, c),
        },
{
    let mut i: usize = 0;
    while i < v.len()
        invariant
            i <= v.len(),
            forall|j: int| 0 <= j < i ==> v@[j] != c,
        decreases v.len() - i,
    {
        if v[i] == c {
            proof {
                lemma_first_occurrence_unique(v@, c, i as int);
            }
            return Some(i);
        }
        i = i + 1;
    }
    None
}

/// Whether `n` occurs as a contiguous subsequence of `h` (`str::contains`).
pub fn contains_vec(h: &Vec<char>, n: &Vec<char>) -> (r: bool)
    ensures
        r == contains_seq(h@, n@),
{
    if n.len() > h.len() {
        return false;
    }
    if n.len() == 0 {
        proof {
            assert(h@.subrange(0, 0) =~= n@);
            assert(contains_at(h@, n@, 0));
        }
        return true;
    }
    let last: usize = h.len() - n.len();
    let mut i: usize = 0;
    while i <= last
        invariant
            i <= last + 1,
            last == h@.len() - n@.len(),
            1 <= n@.len() <= h@.len(),
            h@.len() <= usize::MAX,
            forall|k: int| 0 <= k < i ==> !contains_at(h@, n@, k),
        decreases last - i + 1,
    {
        let mut j: usize = 0;
        let mut matched = true;
        while j < n.len()
            invariant
                0 <= i <= last,
                last == h@.len() - n@.len(),
                1 <= n@.len() <= h@.len(),
                h@.len() <= usize::MAX,
                j <= n@.len(),
                matched <==> (forall|m: int| 0 <= m < j ==> h@[i + m] == n@[m]),
            decreases n.len() - j,
        {
            if h[i + j] != n[j] {
                proof {
                    assert(h@[i + j] != n@[j as int]);
                }
                matched = false;
                j = n.len();
            } else {
                j = j + 1;
            }
        }
        if matched {
            proof {
                assert(h@.subrange(i as int, i + n@.len()) =~= n@);
                assert(contains_at(h@, n@, i as int));
            }
            return true;
        }
        proof {
            if contains_at(h@, n@, i as int) {
                assert forall|m: int| 0 <= m < n@.len() implies h@[i + m] == n@[m] by {
                    assert(h@.subrange(i as int, i + n@.len())[m] == h@[i + m]);
                }
            }
        }
        i = i + 1;
    }
    proof {
        if contains_seq(h@, n@) {
            let k = choose|k: int| contains_at(h@, n@, k);
            assert(!contains_at(h@, n@, k));
        }
    }
    false
}

/// Whether `h` ends with the suffix `n` (`str::ends_with`).
pub fn ends_with_vec(h: &Vec<char>, n: &Vec<char>) -> (r: bool)
    ensures
        r == ends_with_seq(h@, n@),
{
    if n.len() > h.len() {
        return false;
    }
    let tail = subvec(h, h.len() - n.len(), h.len());
    let r = vec_eq(&tail, n);
    r
}

/// Trims ASCII whitespace from both ends (`str::trim`).
pub fn trim_vec(v: &Vec<char>) -> (r: Vec<char>)
    ensures
        r@ == trim_spec(v@),
{
    let mut a: usize = 0;
    while a < v.len() && is_ws(v[a])
        invariant
            a <= v@.len(),
            forall|j: int| 0 <= j < a ==> is_ws_char(v@[j]),
        decreases v.len() - a,
    {
        a = a + 1;
    }
    proof {
        lemma_ws_prefix_unique(v@, a as int);
    }
    if a == v.len() {
        let r: Vec<char> = Vec::new();
        return r;
    }
    let mut e: usize = v.len() - 1;
    while is_ws(v[e])
        invariant
            a <= e < v@.len(),
            !is_ws_char(v@[a as int]),
            forall|j: int| e < j < v@.len() ==> is_ws_char(v@[j]),
        decreases e,
    {
        e = e - 1;
    }
    proof {
        lemma_ws_suffix_unique(v@, v@.len() - 1 - e);
    }
    subvec(v, a, e + 1)
}

} // verus!
