//! Hit Extractor: the version and download link that a page offers.
use vstd::prelude::*;
use crate::config::{opt_view, Config};
use crate::json_path::{json_path_is_supported, json_path_supported};
use crate::pattern::{
    anchor_pattern, anchored, full_match, regex_compiles, regex_is_match, regex_match, regex_valid,
};
use crate::text::{has_prefix, join, joined, starts_with, trim, trimmed, views};

verus! {

/// A version found on a page and the link to download it.
#[derive(Debug, PartialEq)]
pub struct Hit {
    pub version: String,
    pub download_url: String,
}

/// Why a page gave no answer at all, as against a page that holds no
/// matching link.
#[derive(Clone, Copy, Debug, PartialEq, Eq, Structural)]
pub enum HitError {
    /// The link pattern is not a valid regular expression.
    BadPattern,
    /// A link could not be resolved against the page URL.
    BadUrl,
    /// The entry names no version selector.
    MissingVersionSelector,
    /// The body is not JSON, or a JSON path does not parse.
    BadQuery,
    /// The version query found no string.
    NoVersion,
    /// The link query found nothing.
    NoCandidates,
}

/// A hit as (version, download URL).
pub open spec fn hit_outcome(r: Result<Option<Hit>, HitError>) -> Result<
    Option<(Seq<char>, Seq<char>)>,
    HitError,
> {
    match r {
        Ok(Some(h)) => Ok(Some((h.version@, h.download_url@))),
        Ok(None) => Ok(None),
        Err(e) => Err(e),
    }
}

/// What `scraper` selects from the HTML document `body`: for each element
/// matching the CSS `selector`, in the order of the parsed tree's nodes, its
/// `href` attribute and its text nodes. `None` when the selector does not
/// parse.
pub uninterp spec fn html_select_of(body: Seq<char>, selector: Seq<char>) -> Option<
    Seq<(Option<Seq<char>>, Seq<Seq<char>>)>,
>;

/// Selected elements as values: their `href` and their text nodes.
pub open spec fn nodes_view(v: Seq<(Option<String>, Vec<String>)>) -> Seq<
    (Option<Seq<char>>, Seq<Seq<char>>),
> {
    v.map_values(|n: (Option<String>, Vec<String>)| (opt_view(n.0), views(n.1@)))
}

/// Relies on `scraper::Html::parse_document`, `scraper::Selector::parse` and
/// `Html::select`: the elements that match `selector`, in the order of the
/// parsed tree's nodes, each with its `href` attribute and its text nodes.
#[verifier::external_body]
fn html_select(body: &str, selector: &str) -> (r: Option<Vec<(Option<String>, Vec<String>)>>)
    ensures
        r matches Some(v) ==> html_select_of(body@, selector@) == Some(nodes_view(v@)),
        r is None ==> html_select_of(body@, selector@) is None,
{
    let document = scraper::Html::parse_document(body);
    let selector = scraper::Selector::parse(selector).ok()?;
    let mut nodes = Vec::new();
    for e in document.select(&selector) {
        nodes.push((e.value().attr("href").map(String::from), e.text().map(String::from).collect()));
    }
    Some(nodes)
}

/// What `url` makes of `href` resolved against the page URL `page` without
/// its query.
pub uninterp spec fn page_join_of(page: Seq<char>, href: Seq<char>) -> Option<Seq<char>>;

/// What `url` makes of `href` resolved against the root of the page URL
/// `page`, without path or query.
pub uninterp spec fn root_join_of(page: Seq<char>, href: Seq<char>) -> Option<Seq<char>>;

/// Relies on `url::Url::parse`, `Url::set_query` and `Url::join`: `href`
/// resolved against `page` with the query removed.
#[verifier::external_body]
fn join_on_page(page: &str, href: &str) -> (r: Option<String>)
    ensures
        r matches Some(u) ==> page_join_of(page@, href@) == Some(u@),
        r is None ==> page_join_of(page@, href@) is None,
{
    let mut base = url::Url::parse(page).ok()?;
    base.set_query(None);
    Some(base.join(href).ok()?.to_string())
}

/// Relies on `url::Url::parse`, `Url::set_query`, `Url::path_segments_mut`
/// and `Url::join`: `href` resolved against the root of `page`.
#[verifier::external_body]
fn join_on_root(page: &str, href: &str) -> (r: Option<String>)
    ensures
        r matches Some(u) ==> root_join_of(page@, href@) == Some(u@),
        r is None ==> root_join_of(page@, href@) is None,
{
    let mut base = url::Url::parse(page).ok()?;
    base.set_query(None);
    base.path_segments_mut().ok()?.clear();
    Some(base.join(href).ok()?.to_string())
}

/// The absolute URL of a link found on page `page`: kept when it starts
/// with `http`, taken from the site's root when it starts with `/` or
/// `../`, and from the page itself otherwise.
pub open spec fn resolved_href(page: Seq<char>, href: Seq<char>) -> Option<Seq<char>> {
    if has_prefix(href, "http"@) {
        Some(href)
    } else if has_prefix(href, "/"@) || has_prefix(href, "../"@) {
        root_join_of(page, href)
    } else {
        page_join_of(page, href)
    }
}

/// Returns the absolute URL of a link found on page `page`.
pub fn resolve_href(page: &str, href: &str) -> (r: Option<String>)
    ensures
        r matches Some(u) ==> resolved_href(page@, href@) == Some(u@),
        r is None ==> resolved_href(page@, href@) is None,
{
    if starts_with(href, "http") {
        Some(href.to_owned())
    } else if starts_with(href, "/") || starts_with(href, "../") {
        join_on_root(page, href)
    } else {
        join_on_page(page, href)
    }
}

/// The text of a link: its text nodes joined by spaces, trimmed.
pub open spec fn link_text(pieces: Seq<Seq<char>>) -> Seq<char> {
    trimmed(joined(pieces, " "@))
}

/// The URL of the first link from node `i` on whose text `pattern` matches
/// whole; an error when a link before it cannot be resolved.
pub open spec fn scan_links(
    page: Seq<char>,
    nodes: Seq<(Option<Seq<char>>, Seq<Seq<char>>)>,
    pattern: Seq<char>,
    i: int,
) -> Result<Option<Seq<char>>, HitError>
    decreases nodes.len() - i,
{
    if i < 0 || i >= nodes.len() {
        Ok(None)
    } else {
        match nodes[i].0 {
            None => scan_links(page, nodes, pattern, i + 1),
            Some(href) => match resolved_href(page, href) {
                None => Err(HitError::BadUrl),
                Some(u) => if full_match(pattern, link_text(nodes[i].1)) {
                    Ok(Some(u))
                } else {
                    scan_links(page, nodes, pattern, i + 1)
                },
            },
        }
    }
}

/// The hit on the HTML page `body` found at `page`: the first link matched
/// by `anchor_sel` whose text `pattern` matches whole, with the trimmed text
/// of the first element matched by `version_sel`. A selector that does not
/// parse, or a missing version, gives no hit.
pub open spec fn html_hit(
    page: Seq<char>,
    body: Seq<char>,
    anchor_sel: Seq<char>,
    pattern: Seq<char>,
    version_sel: Option<Seq<char>>,
) -> Result<Option<(Seq<char>, Seq<char>)>, HitError> {
    match html_select_of(body, anchor_sel) {
        None => Ok(None),
        Some(nodes) => if !regex_valid(anchored(pattern)) {
            Err(HitError::BadPattern)
        } else {
            match scan_links(page, nodes, pattern, 0) {
                Err(e) => Err(e),
                Ok(None) => Ok(None),
                Ok(Some(u)) => match version_sel {
                    None => Ok(None),
                    Some(vs) => match html_select_of(body, vs) {
                        None => Ok(None),
                        Some(found) => if found.len() == 0 {
                            Ok(None)
                        } else {
                            Ok(Some((trimmed(joined(found[0].1, ""@)), u)))
                        },
                    },
                },
            }
        },
    }
}

/// Finds the hit on the HTML page `body` fetched from the entry's page URL.
pub fn extract_data_from_html(body: &str, conf: &Config) -> (r: Result<Option<Hit>, HitError>)
    ensures
        hit_outcome(r) == html_hit(
            conf@.page_url,
            body@,
            conf@.anchor_tag,
            conf@.anchor_text,
            conf@.version_tag,
        ),
{
    let page = conf.page_url.as_str();
    let pattern = conf.anchor_text.as_str();
    let nodes = match html_select(body, conf.anchor_tag.as_str()) {
        None => return Ok(None),
        Some(n) => n,
    };
    let re = anchor_pattern(pattern);
    if !regex_compiles(re.as_str()) {
        return Err(HitError::BadPattern);
    }
    let ghost nv = nodes_view(nodes@);
    let n = nodes.len();
    let mut i: usize = 0;
    let mut found: Option<String> = None;
    while i < n
        invariant_except_break
            found is None,
        invariant
            n == nodes@.len(),
            nv == nodes_view(nodes@),
            page@ == conf@.page_url,
            pattern@ == conf@.anchor_text,
            html_select_of(body@, conf@.anchor_tag) == Some(nv),
            re@ == anchored(pattern@),
            regex_valid(anchored(pattern@)),
            i <= n,
            scan_links(page@, nv, pattern@, 0) == scan_links(page@, nv, pattern@, i as int),
        ensures
            found matches Some(u) ==> scan_links(page@, nv, pattern@, 0) == Ok::<
                Option<Seq<char>>,
                HitError,
            >(Some(u@)),
            found is None ==> scan_links(page@, nv, pattern@, 0) == Ok::<
                Option<Seq<char>>,
                HitError,
            >(None),
        decreases n - i,
    {
        let node = &nodes[i];
        assert(nv[i as int] == (opt_view(node.0), views(node.1@)));
        if let Some(href) = &node.0 {
            match resolve_href(page, href.as_str()) {
                None => return Err(HitError::BadUrl),
                Some(u) => {
                    let text = trim(join(&node.1, " ").as_str());
                    if regex_is_match(re.as_str(), text.as_str()) {
                        found = Some(u);
                        break;
                    }
                },
            }
        }
        i = i + 1;
    }
    let url = match found {
        None => return Ok(None),
        Some(u) => u,
    };
    let vsel = match &conf.version_tag {
        None => return Ok(None),
        Some(v) => v,
    };
    let versions = match html_select(body, vsel.as_str()) {
        None => return Ok(None),
        Some(v) => v,
    };
    if versions.len() == 0 {
        return Ok(None);
    }
    assert(nodes_view(versions@)[0].1 == views(versions@[0].1@));
    let version = trim(join(&versions[0].1, "").as_str());
    Ok(Some(Hit { version, download_url: url }))
}

/// What the JSON path `path` finds in the JSON text `payload`: each value
/// found, as a string when it is one. `None` when `payload` is not JSON or
/// `path` does not parse.
pub uninterp spec fn json_query_of(payload: Seq<char>, path: Seq<char>) -> Option<
    Seq<Option<Seq<char>>>,
>;

/// Relies on `serde_json::from_str`, `jsonpath_rust::JsonPathInst`'s
/// `from_str` and `find_slice`, and `serde_json::Value::as_str`: the values
/// that `path` finds in `payload`, in order, each as a string when it is one.
/// It fails on the bracket indexes that `json_path_supported` leaves out.
#[verifier::external_body]
fn json_query(payload: &str, path: &str) -> (r: Option<Vec<Option<String>>>)
    requires
        json_path_supported(path@),
    ensures
        r matches Some(v) ==> json_query_of(payload@, path@) == Some(
            v@.map_values(|o: Option<String>| opt_view(o)),
        ),
        r is None ==> json_query_of(payload@, path@) is None,
{
    let value: serde_json::Value = serde_json::from_str(payload).ok()?;
    let query: jsonpath_rust::JsonPathInst = path.parse().ok()?;
    let mut found = Vec::new();
    for v in query.find_slice(&value) {
        found.push(v.as_str().map(String::from));
    }
    Some(found)
}

/// The first string candidate from index `i` in which `pattern` matches.
pub open spec fn first_url(candidates: Seq<Option<Seq<char>>>, pattern: Seq<char>, i: int) -> Option<
    Seq<char>,
>
    decreases candidates.len() - i,
{
    if i < 0 || i >= candidates.len() {
        None
    } else {
        match candidates[i] {
            Some(u) => if regex_match(pattern, u) {
                Some(u)
            } else {
                first_url(candidates, pattern, i + 1)
            },
            None => first_url(candidates, pattern, i + 1),
        }
    }
}

/// The hit in the JSON document `payload`: the first string found by
/// `anchor_path` in which `pattern` matches, with the first value found by
/// `version_path`, which must be a string. A path with a bracket index that
/// `json_path_supported` leaves out is refused as malformed.
pub open spec fn json_hit(
    payload: Seq<char>,
    anchor_path: Seq<char>,
    pattern: Seq<char>,
    version_path: Option<Seq<char>>,
) -> Result<Option<(Seq<char>, Seq<char>)>, HitError> {
    match version_path {
        None => Err(HitError::MissingVersionSelector),
        Some(vp) => if !json_path_supported(vp) {
            Err(HitError::BadQuery)
        } else {
            match json_query_of(payload, vp) {
                None => Err(HitError::BadQuery),
                Some(versions) => if versions.len() == 0 || versions[0] is None {
                    Err(HitError::NoVersion)
                } else if !json_path_supported(anchor_path) {
                    Err(HitError::BadQuery)
                } else {
                    match json_query_of(payload, anchor_path) {
                        None => Err(HitError::BadQuery),
                        Some(candidates) => if candidates.len() == 0 {
                            Err(HitError::NoCandidates)
                        } else if !regex_valid(pattern) {
                            Err(HitError::BadPattern)
                        } else {
                            match first_url(candidates, pattern, 0) {
                                None => Ok(None),
                                Some(u) => Ok(Some((versions[0]->0, u))),
                            }
                        },
                    }
                },
            }
        },
    }
}

/// Finds the hit in a JSON API answer: the version is the first value of
/// the entry's version path, and the link the first string of its anchor
/// path in which the link pattern matches somewhere.
pub fn extract_data_from_json(payload: &str, conf: &Config) -> (r: Result<Option<Hit>, HitError>)
    ensures
        hit_outcome(r) == json_hit(payload@, conf@.anchor_tag, conf@.anchor_text, conf@.version_tag),
{
    let vpath = match &conf.version_tag {
        None => return Err(HitError::MissingVersionSelector),
        Some(v) => v,
    };
    if !json_path_is_supported(vpath.as_str()) {
        return Err(HitError::BadQuery);
    }
    let versions = match json_query(payload, vpath.as_str()) {
        None => return Err(HitError::BadQuery),
        Some(v) => v,
    };
    if versions.len() == 0 {
        return Err(HitError::NoVersion);
    }
    let version = match &versions[0] {
        None => return Err(HitError::NoVersion),
        Some(v) => v.clone(),
    };
    if !json_path_is_supported(conf.anchor_tag.as_str()) {
        return Err(HitError::BadQuery);
    }
    let candidates = match json_query(payload, conf.anchor_tag.as_str()) {
        None => return Err(HitError::BadQuery),
        Some(c) => c,
    };
    if candidates.len() == 0 {
        return Err(HitError::NoCandidates);
    }
    let pattern = conf.anchor_text.as_str();
    if !regex_compiles(pattern) {
        return Err(HitError::BadPattern);
    }
    let ghost cv = candidates@.map_values(|o: Option<String>| opt_view(o));
    let ghost expected: Result<Option<(Seq<char>, Seq<char>)>, HitError> = match first_url(cv, pattern@, 0) {
        None => Ok(None),
        Some(u) => Ok(Some((version@, u))),
    };
    assert(json_hit(payload@, conf@.anchor_tag, conf@.anchor_text, conf@.version_tag) == expected);
    let n = candidates.len();
    let mut i: usize = 0;
    while i < n
        invariant
            n == candidates@.len(),
            cv == candidates@.map_values(|o: Option<String>| opt_view(o)),
            regex_valid(pattern@),
            json_hit(payload@, conf@.anchor_tag, conf@.anchor_text, conf@.version_tag) == expected,
            expected == match first_url(cv, pattern@, 0) {
                None => Ok::<Option<(Seq<char>, Seq<char>)>, HitError>(None),
                Some(u) => Ok(Some((version@, u))),
            },
            i <= n,
            first_url(cv, pattern@, 0) == first_url(cv, pattern@, i as int),
        decreases n - i,
    {
        if let Some(u) = &candidates[i] {
            assert(cv[i as int] == Some(u@));
            if regex_is_match(pattern, u.as_str()) {
                return Ok(Some(Hit { version, download_url: u.clone() }));
            }
        }
        i = i + 1;
    }
    Ok(None)
}

} // verus!
