//! The build-metadata extractor: pulls named properties out of the build
//! tool's loosely formatted output. The output is not contractually
//! stable, so the parse is an ordered chain of strategies: a JSON
//! `Properties` object when the whole output parses as JSON, then a line
//! mentioning the property with a value after `=` or `:`, then the token
//! following the property name, then the whole matching line, and at last
//! a bare single-token output.

use vstd::prelude::*;

use crate::json::json_member_lookup;
use crate::json::json_member_of;
use crate::text::chars_to_string;
use crate::text::contains_seq;
use crate::text::contains_vec;
use crate::text::find_char;
use crate::text::first_occurrence;
use crate::text::has_char;
use crate::text::is_ws;
use crate::text::is_ws_char;
use crate::text::lower_seq;
use crate::text::lower_vec;
use crate::text::subvec;
use crate::text::to_char_vec;
use crate::text::trim_spec;
use crate::text::trim_vec;
use vstd::string::StringExecFns;

verus! {

// ---------------------------------------------------------------------
// Sanitizing an extracted value: trim, strip trailing comma/brace/bracket
// characters, strip one pair of surrounding quotes, trim again.
// ---------------------------------------------------------------------
/// Characters stripped from the end of a crude value: separators and
/// closers that inline JSON leaves behind, and whitespace.
pub open spec fn is_junk_char(c: char) -> bool {
    c == ',' || c == '}' || c == ']' || is_ws_char(c)
}

/// Number of trailing junk characters of `s`.
pub open spec fn junk_suffix(s: Seq<char>) -> int
    decreases s.len(),
{
    if s.len() == 0 {
        0
    } else if is_junk_char(s[s.len() - 1]) {
        1 + junk_suffix(s.subrange(0, s.len() - 1))
    } else {
        0
    }
}

pub proof fn lemma_junk_suffix(s: Seq<char>)
    ensures
        0 <= junk_suffix(s) <= s.len(),
        forall|j: int| s.len() - junk_suffix(s) <= j < s.len() ==> is_junk_char(s[j]),
        junk_suffix(s) < s.len() ==> !is_junk_char(s[s.len() - 1 - junk_suffix(s)]),
    decreases s.len(),
{
    if s.len() > 0 && is_junk_char(s[s.len() - 1]) {
        let t = s.subrange(0, s.len() - 1);
        lemma_junk_suffix(t);
        assert forall|j: int| s.len() - junk_suffix(s) <= j < s.len() implies is_junk_char(
            s[j],
        ) by {
            if j < s.len() - 1 {
                assert(t[j] == s[j]);
            }
        }
        if junk_suffix(s) < s.len() {
            assert(s[s.len() - 1 - junk_suffix(s)] == t[t.len() - 1 - junk_suffix(t)]);
        }
    }
}

pub proof fn lemma_junk_suffix_unique(s: Seq<char>, k: int)
    requires
        0 <= k <= s.len(),
        forall|j: int| s.len() - k <= j < s.len() ==> is_junk_char(s[j]),
        k < s.len() ==> !is_junk_char(s[s.len() - 1 - k]),
    ensures
        junk_suffix(s) == k,
{
    lemma_junk_suffix(s);
    let p = junk_suffix(s);
    if p < k {
        assert(is_junk_char(s[s.len() - 1 - p]));
    }
    if k < p {
        assert(is_junk_char(s[s.len() - 1 - k]));
    }
}

/// `str::trim_end_matches` for the junk characters.
pub open spec fn strip_junk_end(s: Seq<char>) -> Seq<char> {
    s.subrange(0, s.len() - junk_suffix(s))
}

/// Normalizes a crude extracted value such as `"Exe",` to `Exe`: trim,
/// strip trailing junk, trim, strip one pair of surrounding quotes, trim.
pub open spec fn sanitize_spec(s: Seq<char>) -> Seq<char> {
    let t = strip_junk_end(trim_spec(s));
    let u = trim_spec(t);
    let w = if u.len() >= 2 && u[0] == '"' && u[u.len() - 1] == '"' {
        u.subrange(1, u.len() - 1)
    } else {
        u
    };
    trim_spec(w)
}

/// Executable junk stripping from the end.
fn strip_junk_end_vec(v: &Vec<char>) -> (r: Vec<char>)
    ensures
        r@ == strip_junk_end(v@),
{
    proof {
        lemma_junk_suffix(v@);
    }
    let mut e: usize = v.len();
    while e > 0 && (v[e - 1] == ',' || v[e - 1] == '}' || v[e - 1] == ']' || is_ws(v[e - 1]))
        invariant
            e <= v@.len(),
            forall|j: int| e <= j < v@.len() ==> is_junk_char(v@[j]),
        decreases e,
    {
        e = e - 1;
    }
    proof {
        lemma_junk_suffix_unique(v@, v@.len() - e);
    }
    subvec(v, 0, e)
}

/// Executable value sanitizing.
fn sanitize_vec(v: &Vec<char>) -> (r: Vec<char>)
    ensures
        r@ == sanitize_spec(v@),
{
    let t0 = trim_vec(v);
    let t = strip_junk_end_vec(&t0);
    let u = trim_vec(&t);
    if u.len() >= 2 && u[0] == '"' && u[u.len() - 1] == '"' {
        let w = subvec(&u, 1, u.len() - 1);
        trim_vec(&w)
    } else {
        trim_vec(&u)
    }
}

// ---------------------------------------------------------------------
// Lines: maximal newline-free runs of the output.
// ---------------------------------------------------------------------
/// `[a, b)` is one line of `s`: a maximal `'\n'`-free run.
pub open spec fn is_line_run(s: Seq<char>, a: int, b: int) -> bool {
    &&& 0 <= a <= b <= s.len()
    &&& (a == 0 || s[a - 1] == '\n')
    &&& (b == s.len() || s[b] == '\n')
    &&& forall|k: int| a <= k < b ==> s[k] != '\n'
}

/// The line mentions the (already lower-cased) property name, ignoring
/// case and surrounding whitespace; blank lines never match.
pub open spec fn line_matches(line: Seq<char>, pl: Seq<char>) -> bool {
    trim_spec(line).len() > 0 && contains_seq(lower_seq(trim_spec(line)), pl)
}

/// `[a, b)` is the first matching line of `s`.
pub open spec fn is_first_matching_line(s: Seq<char>, pl: Seq<char>, a: int, b: int) -> bool {
    &&& is_line_run(s, a, b)
    &&& line_matches(s.subrange(a, b), pl)
    &&& forall|a2: int, b2: int|
        is_line_run(s, a2, b2) && a2 < a ==> !line_matches(s.subrange(a2, b2), pl)
}

/// Two lines with the same start coincide.
pub proof fn lemma_line_run_end_unique(s: Seq<char>, a: int, b1: int, b2: int)
    requires
        is_line_run(s, a, b1),
        is_line_run(s, a, b2),
    ensures
        b1 == b2,
{
    if b1 < b2 {
        assert(s[b1] != '\n');
    }
    if b2 < b1 {
        assert(s[b2] != '\n');
    }
}

pub proof fn lemma_first_matching_line_unique(
    s: Seq<char>,
    pl: Seq<char>,
    a1: int,
    b1: int,
    a2: int,
    b2: int,
)
    requires
        is_first_matching_line(s, pl, a1, b1),
        is_first_matching_line(s, pl, a2, b2),
    ensures
        a1 == a2,
        b1 == b2,
{
    if a1 < a2 {
        assert(!line_matches(s.subrange(a1, b1), pl));
    }
    if a2 < a1 {
        assert(!line_matches(s.subrange(a2, b2), pl));
    }
    lemma_line_run_end_unique(s, a1, b1, b2);
}

// ---------------------------------------------------------------------
// Tokens: maximal whitespace-free runs of a trimmed line.
// ---------------------------------------------------------------------
/// `[a, b)` is one whitespace-delimited token of `t`.
pub open spec fn is_token_run(t: Seq<char>, a: int, b: int) -> bool {
    &&& 0 <= a < b <= t.len()
    &&& (a == 0 || is_ws_char(t[a - 1]))
    &&& (b == t.len() || is_ws_char(t[b]))
    &&& forall|k: int| a <= k < b ==> !is_ws_char(t[k])
}

/// The token mentions the lower-cased property name.
pub open spec fn token_matches(t: Seq<char>, a: int, b: int, pl: Seq<char>) -> bool {
    contains_seq(lower_seq(t.subrange(a, b)), pl)
}

/// `[a, b)` is the first matching token of `t`.
pub open spec fn is_first_matching_token(t: Seq<char>, pl: Seq<char>, a: int, b: int) -> bool {
    &&& is_token_run(t, a, b)
    &&& token_matches(t, a, b, pl)
    &&& forall|a2: int, b2: int|
        is_token_run(t, a2, b2) && a2 < a ==> !token_matches(t, a2, b2, pl)
}

/// `[a2, b2)` is the next token after position `b`.
pub open spec fn is_next_token(t: Seq<char>, b: int, a2: int, b2: int) -> bool {
    &&& is_token_run(t, a2, b2)
    &&& b <= a2
    &&& forall|k: int| b <= k < a2 ==> is_ws_char(t[k])
}

pub proof fn lemma_token_run_end_unique(t: Seq<char>, a: int, b1: int, b2: int)
    requires
        is_token_run(t, a, b1),
        is_token_run(t, a, b2),
    ensures
        b1 == b2,
{
    if b1 < b2 {
        assert(!is_ws_char(t[b1]));
    }
    if b2 < b1 {
        assert(!is_ws_char(t[b2]));
    }
}

pub proof fn lemma_first_matching_token_unique(
    t: Seq<char>,
    pl: Seq<char>,
    a1: int,
    b1: int,
    a2: int,
    b2: int,
)
    requires
        is_first_matching_token(t, pl, a1, b1),
        is_first_matching_token(t, pl, a2, b2),
    ensures
        a1 == a2,
        b1 == b2,
{
    if a1 < a2 {
        assert(!token_matches(t, a1, b1, pl));
    }
    if a2 < a1 {
        assert(!token_matches(t, a2, b2, pl));
    }
    lemma_token_run_end_unique(t, a1, b1, b2);
}

pub proof fn lemma_next_token_unique(t: Seq<char>, b: int, a1: int, b1: int, a2: int, b2: int)
    requires
        is_next_token(t, b, a1, b1),
        is_next_token(t, b, a2, b2),
    ensures
        a1 == a2,
        b1 == b2,
{
    if a1 < a2 {
        assert(is_ws_char(t[a1]));
        assert(!is_ws_char(t[a1]));
    }
    if a2 < a1 {
        assert(is_ws_char(t[a2]));
        assert(!is_ws_char(t[a2]));
    }
    lemma_token_run_end_unique(t, a1, b1, b2);
}

// ---------------------------------------------------------------------
// The value extracted from one matching (trimmed) line.
// ---------------------------------------------------------------------
/// The value a matching trimmed line `t` yields: the sanitized text after
/// the first `=`, else after the first `:`, else the sanitized token
/// following the first token that mentions the property, else the whole
/// sanitized line.
pub open spec fn line_value(t: Seq<char>, pl: Seq<char>) -> Seq<char> {
    if has_char(t, '=') {
        sanitize_spec(t.subrange(first_occurrence(t, '=') + 1, t.len() as int))
    } else if has_char(t, ':') {
        sanitize_spec(t.subrange(first_occurrence(t, ':') + 1, t.len() as int))
    } else if exists|a: int, b: int| is_first_matching_token(t, pl, a, b) {
        let (a, b) = choose|a: int, b: int| is_first_matching_token(t, pl, a, b);
        if exists|a2: int, b2: int| is_next_token(t, b, a2, b2) {
            let (a2, b2) = choose|a2: int, b2: int| is_next_token(t, b, a2, b2);
            sanitize_spec(t.subrange(a2, b2))
        } else {
            sanitize_spec(t)
        }
    } else {
        sanitize_spec(t)
    }
}

// ---------------------------------------------------------------------
// The bare single-token fallback.
// ---------------------------------------------------------------------
/// `[a, b)` is the only line of `s` with non-whitespace content.
pub open spec fn is_sole_content_line(s: Seq<char>, a: int, b: int) -> bool {
    &&& is_line_run(s, a, b)
    &&& trim_spec(s.subrange(a, b)).len() > 0
    &&& forall|a2: int, b2: int|
        is_line_run(s, a2, b2) && a2 != a ==> trim_spec(s.subrange(a2, b2)).len() == 0
}

pub proof fn lemma_sole_content_line_unique(s: Seq<char>, a1: int, b1: int, a2: int, b2: int)
    requires
        is_sole_content_line(s, a1, b1),
        is_sole_content_line(s, a2, b2),
    ensures
        a1 == a2,
        b1 == b2,
{
    if a1 != a2 {
        assert(trim_spec(s.subrange(a2, b2)).len() == 0);
    }
    lemma_line_run_end_unique(s, a1, b1, b2);
}

/// When no line matches: the sanitized sole line of the output, provided
/// it is a single whitespace-free token.
pub open spec fn bare_token_result(s: Seq<char>) -> Option<Seq<char>> {
    if exists|a: int, b: int| is_sole_content_line(s, a, b) {
        let (a, b) = choose|a: int, b: int| is_sole_content_line(s, a, b);
        let t = trim_spec(s.subrange(a, b));
        if forall|k: int| 0 <= k < t.len() ==> !is_ws_char(t[k]) {
            Some(sanitize_spec(t))
        } else {
            None
        }
    } else {
        None
    }
}

// ---------------------------------------------------------------------
// The whole extraction.
// ---------------------------------------------------------------------
/// The text-only strategies, tried when the JSON strategy yields nothing.
pub open spec fn text_extract_spec(out: Seq<char>, prop: Seq<char>) -> Option<Seq<char>> {
    let pl = lower_seq(prop);
    if exists|a: int, b: int| is_first_matching_line(out, pl, a, b) {
        let (a, b) = choose|a: int, b: int| is_first_matching_line(out, pl, a, b);
        Some(line_value(trim_spec(out.subrange(a, b)), pl))
    } else {
        bare_token_result(out)
    }
}

/// What extracting `prop` from the build tool output `out` yields: the
/// JSON `Properties` member when the whole output is JSON, else the first
/// applicable text strategy.
pub open spec fn extract_spec(out: Seq<char>, prop: Seq<char>) -> Option<Seq<char>> {
    match json_member_of(out, "Properties"@, prop) {
        Some(v) => Some(v),
        None => text_extract_spec(out, prop),
    }
}

// ---------------------------------------------------------------------
// Executable scanners.
// ---------------------------------------------------------------------
/// The value yielded by one matching trimmed line `t`.
#[verifier::loop_isolation(false)]
fn find_token_value(t: &Vec<char>, pl: &Vec<char>) -> (r: Vec<char>)
    ensures
        r@ == line_value(t@, pl@),
{
    match find_char(t, '=') {
        Some(i) => {
            proof {
                assert(i < t.len());
            }
            let tail = subvec(t, i + 1, t.len());
            return sanitize_vec(&tail);
        },
        None => {},
    }
    match find_char(t, ':') {
        Some(i) => {
            proof {
                assert(i < t.len());
            }
            let tail = subvec(t, i + 1, t.len());
            return sanitize_vec(&tail);
        },
        None => {},
    }
    let mut p: usize = 0;
    while p < t.len()
        invariant
            p <= t@.len(),
            forall|a2: int, b2: int|
                is_token_run(t@, a2, b2) && a2 < p ==> !token_matches(t@, a2, b2, pl@),
            p == 0 || is_ws_char(t@[p - 1]) || (p < t@.len() && is_ws_char(t@[p as int])) || p
                == t@.len(),
        decreases t@.len() - p,
    {
        if is_ws(t[p]) {
            proof {
                assert forall|b2: int| !is_token_run(t@, p as int, b2) by {
                    if is_token_run(t@, p as int, b2) {
                        assert(!is_ws_char(t@[p as int]));
                    }
                }
            }
            p = p + 1;
        } else {
            let a = p;
            let mut b = p;
            while b < t.len() && !is_ws(t[b])
                invariant
                    a <= b <= t@.len(),
                    forall|k: int| a <= k < b ==> !is_ws_char(t@[k]),
                decreases t@.len() - b,
            {
                b = b + 1;
            }
            proof {
                assert(is_token_run(t@, a as int, b as int));
            }
            let sub = subvec(t, a, b);
            let low = lower_vec(&sub);
            if contains_vec(&low, pl) {
                proof {
                    assert(token_matches(t@, a as int, b as int, pl@));
                    assert(is_first_matching_token(t@, pl@, a as int, b as int));
                }
                let mut q = b;
                while q < t.len() && is_ws(t[q])
                    invariant
                        b <= q <= t@.len(),
                        forall|k: int| b <= k < q ==> is_ws_char(t@[k]),
                    decreases t@.len() - q,
                {
                    q = q + 1;
                }
                proof {
                    let (fa, fb) = choose|fa: int, fb: int|
                        is_first_matching_token(t@, pl@, fa, fb);
                    lemma_first_matching_token_unique(t@, pl@, fa, fb, a as int, b as int);
                }
                if q == t.len() {
                    proof {
                        assert forall|a2: int, b2: int|
                            !is_next_token(t@, b as int, a2, b2) by {
                            if is_next_token(t@, b as int, a2, b2) {
                                assert(!is_ws_char(t@[a2]));
                                assert(is_ws_char(t@[a2]));
                            }
                        }
                    }
                    return sanitize_vec(t);
                }
                let a2 = q;
                let mut b2 = q;
                while b2 < t.len() && !is_ws(t[b2])
                    invariant
                        a2 <= b2 <= t@.len(),
                        forall|k: int| a2 <= k < b2 ==> !is_ws_char(t@[k]),
                    decreases t@.len() - b2,
                {
                    b2 = b2 + 1;
                }
                proof {
                    assert(is_next_token(t@, b as int, a2 as int, b2 as int));
                    let (na, nb) = choose|na: int, nb: int| is_next_token(t@, b as int, na, nb);
                    lemma_next_token_unique(t@, b as int, na, nb, a2 as int, b2 as int);
                }
                let val = subvec(t, a2, b2);
                return sanitize_vec(&val);
            }
            proof {
                assert forall|a2: int, b2: int|
                    is_token_run(t@, a2, b2) && a2 < b implies !token_matches(
                    t@,
                    a2,
                    b2,
                    pl@,
                ) by {
                    if a2 < a {
                        assert(!token_matches(t@, a2, b2, pl@));
                    } else if a2 == a {
                        lemma_token_run_end_unique(t@, a2, b2, b as int);
                    } else {
                        assert(is_ws_char(t@[a2 - 1]));
                        assert(!is_ws_char(t@[a2 - 1]));
                    }
                }
            }
            p = b;
        }
    }
    proof {
        if exists|a: int, b: int| is_first_matching_token(t@, pl@, a, b) {
            let (a, b) = choose|a: int, b: int| is_first_matching_token(t@, pl@, a, b);
            assert(!token_matches(t@, a, b, pl@));
        }
    }
    sanitize_vec(t)
}

/// Finds the first line of `out` that mentions the property.
fn scan_lines(out: &Vec<char>, pl: &Vec<char>) -> (r: Option<(usize, usize)>)
    ensures
        match r {
            Some(run) => is_first_matching_line(out@, pl@, run.0 as int, run.1 as int),
            None => forall|a: int, b: int|
                is_line_run(out@, a, b) ==> !line_matches(out@.subrange(a, b), pl@),
        },
{
    let mut p: usize = 0;
    loop
        invariant_except_break
            p <= out@.len(),
            p == 0 || out@[p - 1] == '\n',
            forall|a2: int, b2: int|
                is_line_run(out@, a2, b2) && a2 < p ==> !line_matches(out@.subrange(a2, b2), pl@),
        ensures
            forall|a: int, b: int|
                is_line_run(out@, a, b) ==> !line_matches(out@.subrange(a, b), pl@),
        decreases out@.len() + 1 - p,
    {
        let mut e = p;
        while e < out.len() && out[e] != '\n'
            invariant
                p <= e <= out@.len(),
                forall|k: int| p <= k < e ==> out@[k] != '\n',
            decreases out@.len() - e,
        {
            e = e + 1;
        }
        proof {
            assert(is_line_run(out@, p as int, e as int));
        }
        let line = subvec(out, p, e);
        let trimmed = trim_vec(&line);
        if trimmed.len() > 0 {
            let low = lower_vec(&trimmed);
            if contains_vec(&low, pl) {
                proof {
                    assert(line_matches(out@.subrange(p as int, e as int), pl@));
                }
                return Some((p, e));
            }
        }
        proof {
            assert(!line_matches(out@.subrange(p as int, e as int), pl@));
            assert forall|a2: int, b2: int|
                is_line_run(out@, a2, b2) && a2 < e + 1 implies !line_matches(
                out@.subrange(a2, b2),
                pl@,
            ) by {
                if p <= a2 {
                    if a2 > p {
                        assert(out@[a2 - 1] == '\n');
                        assert(out@[a2 - 1] != '\n');
                    } else {
                        lemma_line_run_end_unique(out@, a2, b2, e as int);
                    }
                }
            }
        }
        if e == out.len() {
            proof {
                assert forall|a2: int, b2: int| is_line_run(out@, a2, b2) implies a2 < e + 1 by {
                    assert(a2 <= out@.len());
                }
            }
            break ;
        }
        p = e + 1;
    }
    None
}

/// The bare single-token fallback, used when no line matched.
fn bare_token(out: &Vec<char>) -> (r: Option<Vec<char>>)
    ensures
        match r {
            Some(v) => bare_token_result(out@) == Some(v@),
            None => bare_token_result(out@) is None,
        },
{
    let mut p: usize = 0;
    let mut found: Option<(usize, usize)> = None;
    let mut two = false;
    loop
        invariant_except_break
            p <= out@.len(),
            p == 0 || out@[p - 1] == '\n',
            !two,
            match found {
                Some(run) => {
                    &&& is_line_run(out@, run.0 as int, run.1 as int)
                    &&& trim_spec(out@.subrange(run.0 as int, run.1 as int)).len() > 0
                    &&& run.0 <= run.1 < p
                    &&& forall|a2: int, b2: int|
                        is_line_run(out@, a2, b2) && a2 < p && a2 != run.0 ==> trim_spec(
                            out@.subrange(a2, b2),
                        ).len() == 0
                },
                None => forall|a2: int, b2: int|
                    is_line_run(out@, a2, b2) && a2 < p ==> trim_spec(
                        out@.subrange(a2, b2),
                    ).len() == 0,
            },
        ensures
            two ==> !(exists|a: int, b: int| is_sole_content_line(out@, a, b)),
            !two ==> match found {
                Some(run) => is_sole_content_line(out@, run.0 as int, run.1 as int),
                None => !(exists|a: int, b: int| is_sole_content_line(out@, a, b)),
            },
        decreases out@.len() + 1 - p,
    {
        let mut e = p;
        while e < out.len() && out[e] != '\n'
            invariant
                p <= e <= out@.len(),
                forall|k: int| p <= k < e ==> out@[k] != '\n',
            decreases out@.len() - e,
        {
            e = e + 1;
        }
        proof {
            assert(is_line_run(out@, p as int, e as int));
        }
        let line = subvec(out, p, e);
        let trimmed = trim_vec(&line);
        if trimmed.len() > 0 {
            match found {
                Some(run) => {
                    proof {
                        assert forall|a: int, b: int|
                            !is_sole_content_line(out@, a, b) by {
                            if is_sole_content_line(out@, a, b) {
                                if a != run.0 {
                                    assert(trim_spec(out@.subrange(run.0 as int, run.1 as int)).len()
                                        == 0);
                                } else {
                                    assert(trim_spec(out@.subrange(p as int, e as int)).len() == 0);
                                }
                            }
                        }
                    }
                    two = true;
                    break ;
                },
                None => {
                    found = Some((p, e));
                },
            }
        }
        proof {
            assert forall|a2: int, b2: int|
                is_line_run(out@, a2, b2) && p <= a2 < e + 1 implies a2 == p && b2 == e by {
                if a2 > p {
                    assert(out@[a2 - 1] == '\n');
                    assert(out@[a2 - 1] != '\n');
                } else {
                    lemma_line_run_end_unique(out@, a2, b2, e as int);
                }
            }
        }
        if e == out.len() {
            proof {
                assert forall|a2: int, b2: int| is_line_run(out@, a2, b2) implies a2 <= e by {
                    assert(a2 <= out@.len());
                }
            }
            break ;
        }
        p = e + 1;
    }
    if two {
        return None;
    }
    match found {
        Some((a, b)) => {
            let line = subvec(out, a, b);
            let t = trim_vec(&line);
            let mut k: usize = 0;
            let mut has_ws = false;
            while k < t.len()
                invariant
                    k <= t@.len(),
                    has_ws <==> exists|j: int| 0 <= j < k && is_ws_char(t@[j]),
                decreases t@.len() - k,
            {
                if is_ws(t[k]) {
                    has_ws = true;
                }
                k = k + 1;
            }
            proof {
                let (sa, sb) = choose|sa: int, sb: int| is_sole_content_line(out@, sa, sb);
                lemma_sole_content_line_unique(out@, sa, sb, a as int, b as int);
            }
            if has_ws {
                None
            } else {
                Some(sanitize_vec(&t))
            }
        },
        None => None,
    }
}

/// Extracts the value of `property` from the build tool output `output`,
/// trying the JSON `Properties` object first and the text strategies
/// after it; yields nothing when the output never mentions the property
/// and is not a bare single token.
pub fn parse_msbuild_property_output(output: &str, property: &str) -> (r: Option<String>)
    ensures
        match r {
            Some(s) => extract_spec(output@, property@) == Some(s@),
            None => extract_spec(output@, property@) is None,
        },
{
    match json_member_lookup(output, "Properties", property) {
        Some(s) => {
            return Some(s);
        },
        None => {},
    }
    let out = to_char_vec(output);
    let prop = to_char_vec(property);
    let pl = lower_vec(&prop);
    match scan_lines(&out, &pl) {
        Some((a, b)) => {
            proof {
                let (fa, fb) = choose|fa: int, fb: int|
                    is_first_matching_line(out@, pl@, fa, fb);
                lemma_first_matching_line_unique(out@, pl@, fa, fb, a as int, b as int);
            }
            let line = subvec(&out, a, b);
            let t = trim_vec(&line);
            let v = find_token_value(&t, &pl);
            Some(chars_to_string(&v))
        },
        None => {
            match bare_token(&out) {
                Some(v) => Some(chars_to_string(&v)),
                None => None,
            }
        },
    }
}

/// When the output is not a JSON document carrying the property, no line
/// of it mentions the property, and it is not a sole single-token line,
/// the property is absent from the extraction result.
pub proof fn lemma_absent_property_not_found(out: Seq<char>, prop: Seq<char>)
    requires
        json_member_of(out, "Properties"@, prop) is None,
        forall|a: int, b: int|
            is_line_run(out, a, b) ==> !line_matches(out.subrange(a, b), lower_seq(prop)),
        bare_token_result(out) is None,
    ensures
        extract_spec(out, prop) is None,
{
    let pl = lower_seq(prop);
    if exists|a: int, b: int| is_first_matching_line(out, pl, a, b) {
        let (a, b) = choose|a: int, b: int| is_first_matching_line(out, pl, a, b);
        assert(!line_matches(out.subrange(a, b), pl));
    }
}

// ---------------------------------------------------------------------
// Extracting a whole set of properties, and the command that asks the
// build tool to print them.
// ---------------------------------------------------------------------
/// The character sequences of a list of strings.
pub open spec fn strings_view(l: Seq<String>) -> Seq<Seq<char>> {
    l.map_values(|s: String| s@)
}

/// The character sequences of a list of string pairs.
pub open spec fn pairs_view(l: Seq<(String, String)>) -> Seq<(Seq<char>, Seq<char>)> {
    l.map_values(|p: (String, String)| (p.0@, p.1@))
}

/// The name/value pairs extracted for the requested properties, in
/// request order; properties that are not found contribute nothing.
pub open spec fn extracted_pairs(out: Seq<char>, props: Seq<Seq<char>>) -> Seq<
    (Seq<char>, Seq<char>),
>
    decreases props.len(),
{
    if props.len() == 0 {
        Seq::empty()
    } else {
        let rest = extracted_pairs(out, props.drop_last());
        match extract_spec(out, props.last()) {
            Some(v) => rest.push((props.last(), v)),
            None => rest,
        }
    }
}

/// Extracts every requested property from one build tool output.
pub fn extract_properties(output: &str, properties: &Vec<String>) -> (r: Vec<(String, String)>)
    ensures
        pairs_view(r@) == extracted_pairs(output@, strings_view(properties@)),
{
    let mut r: Vec<(String, String)> = Vec::new();
    let mut i: usize = 0;
    while i < properties.len()
        invariant
            i <= properties@.len(),
            pairs_view(r@) == extracted_pairs(output@, strings_view(properties@.take(i as int))),
        decreases properties@.len() - i,
    {
        let ghost prev = r@;
        let name = &properties[i];
        match parse_msbuild_property_output(output, name.as_str()) {
            Some(v) => {
                r.push((name.clone(), v));
            },
            None => {},
        }
        proof {
            let taken = strings_view(properties@.take(i + 1));
            assert(taken.drop_last() =~= strings_view(properties@.take(i as int)));
            assert(taken.last() == properties@[i as int]@);
            assert(pairs_view(r@) =~= extracted_pairs(output@, taken));
        }
        i = i + 1;
    }
    proof {
        assert(strings_view(properties@.take(properties@.len() as int)) =~= strings_view(
            properties@,
        ));
    }
    r
}

/// The argument list handed to the build tool to print the requested
/// properties quietly: `msbuild <project> /nologo /v:q /getProperty:<p>...`.
pub fn msbuild_args(project: &String, properties: &Vec<String>) -> (args: Vec<String>)
    ensures
        args@.len() == 4 + properties@.len(),
        args@[0]@ == "msbuild"@,
        args@[1]@ == project@,
        args@[2]@ == "/nologo"@,
        args@[3]@ == "/v:q"@,
        forall|i: int|
            0 <= i < properties@.len() ==> args@[4 + i]@ == "/getProperty:"@ + properties@[i]@,
{
    let mut args: Vec<String> = Vec::new();
    args.push(String::from_str("msbuild"));
    args.push(project.clone());
    args.push(String::from_str("/nologo"));
    args.push(String::from_str("/v:q"));
    let mut i: usize = 0;
    while i < properties.len()
        invariant
            i <= properties@.len(),
            args@.len() == 4 + i,
            args@[0]@ == "msbuild"@,
            args@[1]@ == project@,
            args@[2]@ == "/nologo"@,
            args@[3]@ == "/v:q"@,
            forall|j: int| 0 <= j < i ==> args@[4 + j]@ == "/getProperty:"@ + properties@[j]@,
        decreases properties@.len() - i,
    {
        let mut a = String::from_str("/getProperty:");
        a.append(properties[i].as_str());
        args.push(a);
        i = i + 1;
    }
    args
}

} // verus!
