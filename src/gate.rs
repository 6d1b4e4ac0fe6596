//! Version Gate: whether a found version replaces the recorded one.
use vstd::prelude::*;

verus! {

/// `a <= b` in the lexicographic order of characters, the order of `str`'s
/// `<=`.
pub open spec fn lex_le(a: Seq<char>, b: Seq<char>) -> bool
    decreases a.len(),
{
    if a.len() == 0 {
        true
    } else if b.len() == 0 {
        false
    } else if a[0] != b[0] {
        a[0] < b[0]
    } else {
        lex_le(a.drop_first(), b.drop_first())
    }
}

proof fn lemma_lex_le_step(a: Seq<char>, b: Seq<char>, i: int)
    requires
        0 <= i < a.len(),
        i < b.len(),
        a[i] == b[i],
    ensures
        lex_le(a.skip(i), b.skip(i)) == lex_le(a.skip(i + 1), b.skip(i + 1)),
{
    assert(a.skip(i).drop_first() =~= a.skip(i + 1));
    assert(b.skip(i).drop_first() =~= b.skip(i + 1));
}

/// Returns whether `a <= b` in the lexicographic order of characters.
pub fn version_le(a: &str, b: &str) -> (r: bool)
    ensures
        r == lex_le(a@, b@),
{
    let n = a.unicode_len();
    let m = b.unicode_len();
    let mut i: usize = 0;
    assert(a@.skip(0) =~= a@);
    assert(b@.skip(0) =~= b@);
    while i < n && i < m
        invariant
            n == a@.len(),
            m == b@.len(),
            i <= n,
            i <= m,
            lex_le(a@, b@) == lex_le(a@.skip(i as int), b@.skip(i as int)),
        decreases n - i,
    {
        let x = a.get_char(i);
        let y = b.get_char(i);
        if x != y {
            return x < y;
        }
        proof {
            lemma_lex_le_step(a@, b@, i as int);
        }
        i = i + 1;
    }
    i == n
}

/// Whether a found version is to be downloaded: always when the target file
/// is missing, else only when it is newer than the recorded one.
pub open spec fn update_wanted(found: Seq<char>, recorded: Option<Seq<char>>, target_exists: bool) -> bool {
    match recorded {
        Some(v) => !target_exists || !lex_le(found, v),
        None => true,
    }
}

/// Decides whether the found version is fetched. Versions compare as plain
/// strings, so `"9"` counts as newer than `"10"`.
pub fn should_update(found: &str, recorded: &Option<String>, target_exists: bool) -> (r: bool)
    ensures
        r == update_wanted(found@, crate::config::opt_view(*recorded), target_exists),
        !target_exists ==> r,
        (recorded matches Some(v) && target_exists && lex_le(found@, v@)) ==> !r,
{
    match recorded {
        Some(v) => !target_exists || !version_le(found, v.as_str()),
        None => true,
    }
}

} // verus!
