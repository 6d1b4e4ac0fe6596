//! Character-level string helpers, each stated over `Seq<char>`.
use vstd::prelude::*;
use vstd::string::*;

verus! {

/// Whether `s` begins with `prefix`.
pub open spec fn has_prefix(s: Seq<char>, prefix: Seq<char>) -> bool {
    prefix.len() <= s.len() && s.subrange(0, prefix.len() as int) == prefix
}

/// Whether `s` ends with `suffix`.
pub open spec fn has_suffix(s: Seq<char>, suffix: Seq<char>) -> bool {
    suffix.len() <= s.len() && s.subrange(s.len() - suffix.len(), s.len() as int) == suffix
}

/// Returns true when `s` begins with `prefix`.
pub fn starts_with(s: &str, prefix: &str) -> (r: bool)
    ensures
        r == has_prefix(s@, prefix@),
{
    let n = s.unicode_len();
    let m = prefix.unicode_len();
    if m > n {
        return false;
    }
    let mut i: usize = 0;
    while i < m
        invariant
            m <= n,
            n == s@.len(),
            m == prefix@.len(),
            i <= m,
            forall|j: int| 0 <= j < i ==> s@[j] == prefix@[j],
        decreases m - i,
    {
        if s.get_char(i) != prefix.get_char(i) {
            assert(s@.subrange(0, m as int)[i as int] != prefix@[i as int]);
            return false;
        }
        i = i + 1;
    }
    assert(s@.subrange(0, m as int) =~= prefix@);
    true
}

/// Returns true when `s` ends with `suffix`.
pub fn ends_with(s: &str, suffix: &str) -> (r: bool)
    ensures
        r == has_suffix(s@, suffix@),
{
    let n = s.unicode_len();
    let m = suffix.unicode_len();
    if m > n {
        return false;
    }
    let mut i: usize = 0;
    while i < m
        invariant
            m <= n,
            n == s@.len(),
            m == suffix@.len(),
            i <= m,
            forall|j: int| 0 <= j < i ==> s@[n - m + j] == suffix@[j],
        decreases m - i,
    {
        if s.get_char(n - m + i) != suffix.get_char(i) {
            assert(s@.subrange(n - m, n as int)[i as int] != suffix@[i as int]);
            return false;
        }
        i = i + 1;
    }
    assert(s@.subrange(n - m, n as int) =~= suffix@);
    true
}

/// Returns true when the two strings hold the same characters.
pub fn str_eq(a: &str, b: &str) -> (r: bool)
    ensures
        r == (a@ == b@),
{
    let n = a.unicode_len();
    if n != b.unicode_len() {
        return false;
    }
    let mut i: usize = 0;
    while i < n
        invariant
            n == a@.len(),
            n == b@.len(),
            i <= n,
            forall|j: int| 0 <= j < i ==> a@[j] == b@[j],
        decreases n - i,
    {
        if a.get_char(i) != b.get_char(i) {
            return false;
        }
        i = i + 1;
    }
    assert(a@ =~= b@);
    true
}

/// Returns true when `c` occurs in `s`.
pub fn contains_char(s: &str, c: char) -> (r: bool)
    ensures
        r == s@.contains(c),
{
    let n = s.unicode_len();
    let mut i: usize = 0;
    while i < n
        invariant
            n == s@.len(),
            i <= n,
            forall|j: int| 0 <= j < i ==> s@[j] != c,
        decreases n - i,
    {
        if s.get_char(i) == c {
            return true;
        }
        i = i + 1;
    }
    false
}

/// Whether `t` occurs in `s`.
pub open spec fn has_substring(s: Seq<char>, t: Seq<char>) -> bool {
    exists|i: int| 0 <= i && i + t.len() <= s.len() && #[trigger] s.subrange(i, i + t.len()) == t
}

/// Returns true when `t` occurs in `s`.
pub fn contains_str(s: &str, t: &str) -> (r: bool)
    ensures
        r == has_substring(s@, t@),
{
    let n = s.unicode_len();
    let m = t.unicode_len();
    if m > n {
        return false;
    }
    let mut i: usize = 0;
    loop
        invariant
            n == s@.len(),
            m == t@.len(),
            m <= n,
            i <= n - m,
            forall|k: int| 0 <= k < i ==> #[trigger] s@.subrange(k, k + t@.len()) != t@,
        decreases n - m - i,
    {
        if str_eq(s.substring_char(i, i + m), t) {
            return true;
        }
        if i == n - m {
            assert forall|k: int| 0 <= k && k + t@.len() <= s@.len() implies #[trigger] s@.subrange(
                k,
                k + t@.len(),
            ) != t@ by {
                assert(k <= i);
            }
            return false;
        }
        i = i + 1;
    }
}

/// The last `n` characters of `s`, when `s` has at least `n`.
pub open spec fn last_chars(s: Seq<char>, n: nat) -> Option<Seq<char>> {
    if n <= s.len() {
        Some(s.subrange(s.len() - n, s.len() as int))
    } else {
        None
    }
}

/// Returns a slice of the last `n` characters of a string, or `None` when
/// the string is shorter than that.
pub fn slice_from_end(s: &str, n: usize) -> (r: Option<&str>)
    ensures
        r matches Some(t) ==> last_chars(s@, n as nat) == Some(t@),
        r is None ==> last_chars(s@, n as nat) is None,
{
    let len = s.unicode_len();
    if n > len {
        None
    } else {
        Some(s.substring_char(len - n, len))
    }
}

/// Unicode `White_Space`, the set that `char::is_whitespace` tests.
pub open spec fn is_space(c: char) -> bool {
    ||| ('\u{9}' <= c && c <= '\u{d}')
    ||| c == ' '
    ||| c == '\u{85}'
    ||| c == '\u{a0}'
    ||| c == '\u{1680}'
    ||| ('\u{2000}' <= c && c <= '\u{200a}')
    ||| c == '\u{2028}'
    ||| c == '\u{2029}'
    ||| c == '\u{202f}'
    ||| c == '\u{205f}'
    ||| c == '\u{3000}'
}

/// Returns true when `c` is white space.
pub fn space(c: char) -> (r: bool)
    ensures
        r == is_space(c),
{
    ('\u{9}' <= c && c <= '\u{d}') || c == ' ' || c == '\u{85}' || c == '\u{a0}' || c
        == '\u{1680}' || ('\u{2000}' <= c && c <= '\u{200a}') || c == '\u{2028}' || c
        == '\u{2029}' || c == '\u{202f}' || c == '\u{205f}' || c == '\u{3000}'
}

/// Index of the first character at or after `i` that is not white space.
pub open spec fn skip_spaces(s: Seq<char>, i: int) -> int
    decreases s.len() - i,
{
    if 0 <= i < s.len() && is_space(s[i]) {
        skip_spaces(s, i + 1)
    } else {
        i
    }
}

/// End of `s[lo..j]` once the white space at its end is dropped.
pub open spec fn skip_spaces_back(s: Seq<char>, j: int, lo: int) -> int
    decreases j - lo,
{
    if lo < j && is_space(s[j - 1]) {
        skip_spaces_back(s, j - 1, lo)
    } else {
        j
    }
}

/// `s` without leading and trailing white space.
pub open spec fn trimmed(s: Seq<char>) -> Seq<char> {
    let a = skip_spaces(s, 0);
    s.subrange(a, skip_spaces_back(s, s.len() as int, a))
}

proof fn lemma_skip_spaces_bounds(s: Seq<char>, i: int)
    requires
        0 <= i <= s.len(),
    ensures
        i <= skip_spaces(s, i) <= s.len(),
    decreases s.len() - i,
{
    if i < s.len() && is_space(s[i]) {
        lemma_skip_spaces_bounds(s, i + 1);
    }
}

proof fn lemma_skip_spaces_back_bounds(s: Seq<char>, j: int, lo: int)
    requires
        lo <= j,
    ensures
        lo <= skip_spaces_back(s, j, lo) <= j,
    decreases j - lo,
{
    if lo < j && is_space(s[j - 1]) {
        lemma_skip_spaces_back_bounds(s, j - 1, lo);
    }
}

/// Returns `s` without leading and trailing white space.
pub fn trim(s: &str) -> (r: String)
    ensures
        r@ == trimmed(s@),
{
    let n = s.unicode_len();
    let mut i: usize = 0;
    proof {
        lemma_skip_spaces_bounds(s@, 0);
    }
    while i < n && space(s.get_char(i))
        invariant
            n == s@.len(),
            i <= skip_spaces(s@, 0) <= n,
            skip_spaces(s@, 0) == skip_spaces(s@, i as int),
        decreases n - i,
    {
        i = i + 1;
        proof {
            lemma_skip_spaces_bounds(s@, i as int);
        }
    }
    let mut j: usize = n;
    proof {
        lemma_skip_spaces_back_bounds(s@, n as int, i as int);
    }
    while j > i && space(s.get_char(j - 1))
        invariant
            n == s@.len(),
            i == skip_spaces(s@, 0),
            i <= skip_spaces_back(s@, n as int, i as int) <= j <= n,
            skip_spaces_back(s@, n as int, i as int) == skip_spaces_back(s@, j as int, i as int),
        decreases j,
    {
        j = j - 1;
        proof {
            lemma_skip_spaces_back_bounds(s@, j as int, i as int);
        }
    }
    s.substring_char(i, j).to_owned()
}

/// The characters of each string.
pub open spec fn views(v: Seq<String>) -> Seq<Seq<char>> {
    v.map_values(|s: String| s@)
}

/// The pieces written one after another with `sep` between each two.
pub open spec fn joined(pieces: Seq<Seq<char>>, sep: Seq<char>) -> Seq<char>
    decreases pieces.len(),
{
    if pieces.len() == 0 {
        Seq::empty()
    } else if pieces.len() == 1 {
        pieces[0]
    } else {
        joined(pieces.drop_last(), sep) + sep + pieces.last()
    }
}

/// Returns the pieces written one after another with `sep` between each two.
pub fn join(pieces: &Vec<String>, sep: &str) -> (r: String)
    ensures
        r@ == joined(views(pieces@), sep@),
{
    let mut acc = String::new();
    let n = pieces.len();
    let mut i: usize = 0;
    while i < n
        invariant
            n == pieces@.len(),
            i <= n,
            acc@ == joined(views(pieces@.subrange(0, i as int)), sep@),
        decreases n - i,
    {
        proof {
            let next = views(pieces@.subrange(0, i + 1));
            assert(next.drop_last() =~= views(pieces@.subrange(0, i as int)));
            assert(next.last() == pieces@[i as int]@);
        }
        if i > 0 {
            acc.append(sep);
        } else {
            assert(views(pieces@.subrange(0, 0)) =~= Seq::empty());
        }
        acc.append(pieces[i].as_str());
        i = i + 1;
    }
    assert(pieces@.subrange(0, n as int) =~= pieces@);
    acc
}

/// End of `p[..j]` once the slashes at its end are dropped.
pub open spec fn skip_slashes_back(p: Seq<char>, j: int) -> int
    decreases j,
{
    if 0 < j && p[j - 1] == '/' {
        skip_slashes_back(p, j - 1)
    } else {
        j
    }
}

/// Start of the path segment that ends at `j`: just after the last slash before it.
pub open spec fn segment_start(p: Seq<char>, j: int) -> int
    decreases j,
{
    if 0 < j && p[j - 1] != '/' {
        segment_start(p, j - 1)
    } else {
        j
    }
}

/// End of the last segment of `p[..j]` that is neither empty nor `.`:
/// trailing slashes and `.` segments are passed over.
pub open spec fn last_segment_end(p: Seq<char>, j: int) -> int
    decreases j,
{
    let e = skip_slashes_back(p, j);
    let s = segment_start(p, e);
    if 0 <= s && s < e && e <= j && e - s == 1 && p[s] == '.' {
        last_segment_end(p, s)
    } else {
        e
    }
}

/// The last component of a `/`-separated path, as `std::path::Path::file_name`
/// finds it: empty and `.` segments are passed over, and there is none when
/// that component is `..` or the path has no component.
pub open spec fn base_name(p: Seq<char>) -> Option<Seq<char>> {
    let e = last_segment_end(p, p.len() as int);
    let name = p.subrange(segment_start(p, e), e);
    if name.len() == 0 || name == seq!['.', '.'] {
        None
    } else {
        Some(name)
    }
}

proof fn lemma_skip_slashes_back_bounds(p: Seq<char>, j: int)
    requires
        0 <= j <= p.len(),
    ensures
        0 <= skip_slashes_back(p, j) <= j,
    decreases j,
{
    if 0 < j && p[j - 1] == '/' {
        lemma_skip_slashes_back_bounds(p, j - 1);
    }
}

proof fn lemma_segment_start_bounds(p: Seq<char>, j: int)
    requires
        0 <= j <= p.len(),
    ensures
        0 <= segment_start(p, j) <= j,
    decreases j,
{
    if 0 < j && p[j - 1] != '/' {
        lemma_segment_start_bounds(p, j - 1);
    }
}

proof fn lemma_last_segment_end_bounds(p: Seq<char>, j: int)
    requires
        0 <= j <= p.len(),
    ensures
        0 <= last_segment_end(p, j) <= j,
    decreases j,
{
    lemma_skip_slashes_back_bounds(p, j);
    let e = skip_slashes_back(p, j);
    lemma_segment_start_bounds(p, e);
    let s = segment_start(p, e);
    if 0 <= s && s < e && e <= j && e - s == 1 && p[s] == '.' {
        lemma_last_segment_end_bounds(p, s);
    }
}

/// Returns the base file name of a `/`-separated path, as
/// `std::path::Path::file_name` does.
pub fn file_name(path: &str) -> (r: Option<String>)
    ensures
        r matches Some(name) ==> base_name(path@) == Some(name@),
        r is None ==> base_name(path@) is None,
{
    let n = path.unicode_len();
    let mut j: usize = n;
    let mut e: usize = 0;
    let mut b: usize = 0;
    loop
        invariant
            n == path@.len(),
            j <= n,
            last_segment_end(path@, n as int) == last_segment_end(path@, j as int),
        ensures
            b <= e <= n,
            last_segment_end(path@, n as int) == e,
            segment_start(path@, e as int) == b,
        decreases j,
    {
        e = j;
        proof {
            lemma_skip_slashes_back_bounds(path@, j as int);
        }
        while e > 0 && path.get_char(e - 1) == '/'
            invariant
                n == path@.len(),
                j <= n,
                skip_slashes_back(path@, j as int) == skip_slashes_back(path@, e as int),
                skip_slashes_back(path@, e as int) <= e <= j,
            decreases e,
        {
            e = e - 1;
            proof {
                lemma_skip_slashes_back_bounds(path@, e as int);
            }
        }
        b = e;
        proof {
            lemma_segment_start_bounds(path@, e as int);
        }
        while b > 0 && path.get_char(b - 1) != '/'
            invariant
                n == path@.len(),
                e <= n,
                segment_start(path@, e as int) == segment_start(path@, b as int),
                segment_start(path@, b as int) <= b <= e,
            decreases b,
        {
            b = b - 1;
            proof {
                lemma_segment_start_bounds(path@, b as int);
            }
        }
        if b < e && e - b == 1 && path.get_char(b) == '.' {
            j = b;
        } else {
            assert(last_segment_end(path@, j as int) == e);
            break;
        }
    }
    let name = path.substring_char(b, e);
    let len = e - b;
    if len == 0 {
        return None;
    }
    if len == 2 && name.get_char(0) == '.' && name.get_char(1) == '.' {
        assert(name@ =~= seq!['.', '.']);
        return None;
    }
    assert(name@ != seq!['.', '.']) by {
        if name@ =~= seq!['.', '.'] {
            assert(name@[0] == '.' && name@[1] == '.');
        }
    }
    Some(name.to_owned())
}

} // verus!
