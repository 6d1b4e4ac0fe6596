//! The JSON paths handed to `jsonpath_rust`: those whose bracket indexes it
//! evaluates without failing.
//!
//! `jsonpath_rust` turns each number of an index such as `[3]` or `[1,2]`
//! into an unsigned integer and stops the program when that fails (a
//! negative, fractional or too large number), and it stops it too on a slice
//! whose step is zero (`[::0]`). The paths kept here leave out those forms:
//! in a bracket whose text starts with a digit, `-` or `:`, a slice holds a
//! single `:` and so no step, and an index or union holds only digits,
//! commas and blanks, with at most 18 digits in a row.
use vstd::prelude::*;
use crate::text::{contains_char, is_space, space, trim, trimmed};

verus! {

/// An ASCII digit.
pub open spec fn is_digit(c: char) -> bool {
    '0' <= c && c <= '9'
}

/// Whether a bracket's text reads as a number, a union of numbers or a
/// slice.
pub open spec fn opens_number(c: Seq<char>) -> bool {
    let t = trimmed(c);
    t.len() > 0 && (is_digit(t[0]) || t[0] == '-' || t[0] == ':')
}

/// A character that a slice bracket may hold.
pub open spec fn slice_char(ch: char) -> bool {
    is_digit(ch) || ch == '-' || ch == ':' || is_space(ch)
}

/// A character that an index or union bracket may hold.
pub open spec fn union_char(ch: char) -> bool {
    is_digit(ch) || ch == ',' || is_space(ch)
}

/// `c` holds `:` at most once.
pub open spec fn one_colon_at_most(c: Seq<char>) -> bool {
    forall|a: int, b: int| 0 <= a < b < c.len() ==> !(#[trigger] c[a] == ':' && #[trigger] c[b] == ':')
}

/// The 19 characters of `c` from `a` on are all digits.
pub open spec fn digits_at(c: Seq<char>, a: int) -> bool {
    forall|k: int| a <= k < a + 19 ==> is_digit(#[trigger] c[k])
}

/// No run of more than 18 digits: each number stays below `i64::MAX`.
pub open spec fn short_digit_runs(c: Seq<char>) -> bool {
    forall|a: int| 0 <= a && a + 19 <= c.len() ==> !#[trigger] digits_at(c, a)
}

/// Whether the text `c` of a bracket is evaluated without failing.
pub open spec fn index_supported(c: Seq<char>) -> bool {
    !opens_number(c) || if c.contains(':') {
        (forall|k: int| 0 <= k < c.len() ==> slice_char(#[trigger] c[k])) && one_colon_at_most(c)
    } else {
        (forall|k: int| 0 <= k < c.len() ==> union_char(#[trigger] c[k])) && short_digit_runs(c)
    }
}

/// The index of the first `]` at or after `j`, or the end of `p`.
pub open spec fn bracket_end(p: Seq<char>, j: int) -> int
    decreases p.len() - j,
{
    if j < 0 || j >= p.len() || p[j] == ']' {
        j
    } else {
        bracket_end(p, j + 1)
    }
}

/// Whether every bracket of the JSON path `p` is evaluated without failing.
pub open spec fn json_path_supported(p: Seq<char>) -> bool {
    forall|i: int|
        0 <= i < p.len() && #[trigger] p[i] == '[' ==> index_supported(
            p.subrange(i + 1, bracket_end(p, i + 1)),
        )
}

proof fn lemma_bracket_end_bounds(p: Seq<char>, j: int)
    requires
        0 <= j <= p.len(),
    ensures
        j <= bracket_end(p, j) <= p.len(),
    decreases p.len() - j,
{
    if j < p.len() && p[j] != ']' {
        lemma_bracket_end_bounds(p, j + 1);
    }
}

/// Returns whether `c` is an ASCII digit.
fn digit(c: char) -> (r: bool)
    ensures
        r == is_digit(c),
{
    '0' <= c && c <= '9'
}

/// Returns whether all of `c` are slice characters, or all union characters.
fn all_chars(c: &str, slice: bool) -> (r: bool)
    ensures
        slice ==> r == forall|k: int| 0 <= k < c@.len() ==> slice_char(#[trigger] c@[k]),
        !slice ==> r == forall|k: int| 0 <= k < c@.len() ==> union_char(#[trigger] c@[k]),
{
    let n = c.unicode_len();
    let mut i: usize = 0;
    while i < n
        invariant
            n == c@.len(),
            i <= n,
            slice ==> forall|k: int| 0 <= k < i ==> slice_char(#[trigger] c@[k]),
            !slice ==> forall|k: int| 0 <= k < i ==> union_char(#[trigger] c@[k]),
        decreases n - i,
    {
        let ch = c.get_char(i);
        let ok = if slice {
            digit(ch) || ch == '-' || ch == ':' || space(ch)
        } else {
            digit(ch) || ch == ',' || space(ch)
        };
        if !ok {
            return false;
        }
        i = i + 1;
    }
    true
}

/// Returns whether `c` holds `:` at most once.
fn colons_at_most_one(c: &str) -> (r: bool)
    ensures
        r == one_colon_at_most(c@),
{
    let n = c.unicode_len();
    let mut seen = false;
    let mut first: usize = 0;
    let mut i: usize = 0;
    while i < n
        invariant
            n == c@.len(),
            i <= n,
            seen ==> first < i && c@[first as int] == ':',
            !seen ==> forall|k: int| 0 <= k < i ==> c@[k] != ':',
            forall|a: int, b: int| 0 <= a < b < i ==> !(#[trigger] c@[a] == ':' && #[trigger] c@[b] == ':'),
        decreases n - i,
    {
        if c.get_char(i) == ':' {
            if seen {
                assert(c@[first as int] == ':' && c@[i as int] == ':');
                return false;
            }
            seen = true;
            first = i;
        }
        i = i + 1;
    }
    true
}

/// Returns whether `c` has no run of more than 18 digits.
fn runs_short(c: &str) -> (r: bool)
    ensures
        r == short_digit_runs(c@),
{
    let n = c.unicode_len();
    let mut a: usize = 0;
    while n >= 19 && a <= n - 19
        invariant
            n == c@.len(),
            forall|x: int| 0 <= x < a && x + 19 <= n ==> !#[trigger] digits_at(c@, x),
        decreases n - a,
    {
        let mut k: usize = a;
        while k < a + 19 && digit(c.get_char(k))
            invariant
                n == c@.len(),
                a + 19 <= n,
                a <= k <= a + 19,
                forall|y: int| a <= y < k ==> is_digit(#[trigger] c@[y]),
            decreases a + 19 - k,
        {
            k = k + 1;
        }
        if k == a + 19 {
            assert(digits_at(c@, a as int));
            return false;
        }
        assert(!is_digit(c@[k as int]));
        assert(!digits_at(c@, a as int));
        a = a + 1;
    }
    true
}

/// Returns whether the text `c` of a bracket is evaluated without failing.
fn index_ok(c: &str) -> (r: bool)
    ensures
        r == index_supported(c@),
{
    let t = trim(c);
    if t.as_str().unicode_len() == 0 {
        return true;
    }
    let f = t.as_str().get_char(0);
    if !(digit(f) || f == '-' || f == ':') {
        return true;
    }
    if contains_char(c, ':') {
        all_chars(c, true) && colons_at_most_one(c)
    } else {
        all_chars(c, false) && runs_short(c)
    }
}

/// Returns whether every bracket of the JSON path `path` is evaluated by
/// `jsonpath_rust` without failing.
pub fn json_path_is_supported(path: &str) -> (r: bool)
    ensures
        r == json_path_supported(path@),
{
    let n = path.unicode_len();
    let mut i: usize = 0;
    while i < n
        invariant
            n == path@.len(),
            i <= n,
            forall|k: int|
                0 <= k < i && #[trigger] path@[k] == '[' ==> index_supported(
                    path@.subrange(k + 1, bracket_end(path@, k + 1)),
                ),
        decreases n - i,
    {
        if path.get_char(i) == '[' {
            let mut e: usize = i + 1;
            proof {
                lemma_bracket_end_bounds(path@, i + 1);
            }
            while e < n && path.get_char(e) != ']'
                invariant
                    n == path@.len(),
                    i < n,
                    i + 1 <= e <= bracket_end(path@, i + 1) <= n,
                    bracket_end(path@, i + 1) == bracket_end(path@, e as int),
                decreases n - e,
            {
                e = e + 1;
                proof {
                    lemma_bracket_end_bounds(path@, e as int);
                }
            }
            if !index_ok(path.substring_char(i + 1, e)) {
                assert(path@[i as int] == '[');
                return false;
            }
        }
        i = i + 1;
    }
    true
}

} // verus!
