//! Regular expressions, through the `regex` crate.
use vstd::prelude::*;
use vstd::string::*;

verus! {

/// Whether `regex::Regex::new` accepts `pattern`.
pub uninterp spec fn regex_valid(pattern: Seq<char>) -> bool;

/// Whether the compiled `pattern` matches somewhere in `text`.
pub uninterp spec fn regex_match(pattern: Seq<char>, text: Seq<char>) -> bool;

/// Relies on `regex::Regex::new`: whether a pattern compiles depends on the
/// pattern alone.
#[verifier::external_body]
pub(crate) fn regex_compiles(pattern: &str) -> (r: bool)
    ensures
        r == regex_valid(pattern@),
{
    regex::Regex::new(pattern).is_ok()
}

/// Relies on `regex::Regex::is_match`: whether the compiled pattern matches
/// somewhere in `text`.
#[verifier::external_body]
pub(crate) fn regex_is_match(pattern: &str, text: &str) -> (r: bool)
    requires
        regex_valid(pattern@),
    ensures
        r == regex_match(pattern@, text@),
{
    match regex::Regex::new(pattern) {
        Ok(re) => re.is_match(text),
        Err(_) => false,
    }
}

/// `pattern` in a non-capturing group tied to both ends of the text, so
/// that an alternation inside it is tied as a whole.
pub open spec fn anchored(pattern: Seq<char>) -> Seq<char> {
    "^(?:"@ + pattern + ")$"@
}

/// Whether `pattern`, grouped and tied to both ends, matches `text`: a
/// match of the whole text.
pub open spec fn full_match(pattern: Seq<char>, text: Seq<char>) -> bool {
    regex_match(anchored(pattern), text)
}

/// Returns `pattern` in a non-capturing group tied to both ends of the
/// text.
pub fn anchor_pattern(pattern: &str) -> (r: String)
    ensures
        r@ == anchored(pattern@),
{
    let mut p = String::from_str("^(?:");
    p.append(pattern);
    p.append(")$");
    p
}

/// Returns whether `pattern`, grouped and tied to both ends, matches
/// `text`, or `None` when that does not compile.
pub fn matches_fully(pattern: &str, text: &str) -> (r: Option<bool>)
    ensures
        r is None <==> !regex_valid(anchored(pattern@)),
        r matches Some(b) ==> b == full_match(pattern@, text@),
{
    let p = anchor_pattern(pattern);
    if regex_compiles(p.as_str()) {
        Some(regex_is_match(p.as_str(), text))
    } else {
        None
    }
}

} // verus!
