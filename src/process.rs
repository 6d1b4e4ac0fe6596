//! Orchestrator decisions for one section: which extractor reads the page,
//! and whether and how a hit is downloaded.
use vstd::prelude::*;
use crate::archive::{container_for, container_of, Container};
use crate::config::Config;
use crate::gate::{should_update, update_wanted};
use crate::hit::{extract_data_from_html, extract_data_from_json, hit_outcome, html_hit, json_hit, Hit, HitError};
use crate::text::str_eq;

verus! {

/// How an entry's page is read.
#[derive(Clone, Copy, Debug, PartialEq, Eq, Structural)]
pub enum FetchMethod {
    /// An HTML page, read with CSS selectors.
    HtmlScrape,
    /// A JSON API answer, read with JSON paths.
    JsonApi,
}

/// The method that an entry's `method` field selects: `api_json` for JSON,
/// anything else for HTML.
pub open spec fn method_of(method: Seq<char>) -> FetchMethod {
    if method == "api_json"@ {
        FetchMethod::JsonApi
    } else {
        FetchMethod::HtmlScrape
    }
}

impl Config {
    /// Returns how this entry's page is read.
    pub fn fetch_method(&self) -> (r: FetchMethod)
        ensures
            r == method_of(self@.method),
    {
        if str_eq(self.method.as_str(), "api_json") {
            FetchMethod::JsonApi
        } else {
            FetchMethod::HtmlScrape
        }
    }
}

/// The hit that an entry finds in the body of its page.
pub open spec fn page_hit(conf: Config, body: Seq<char>) -> Result<
    Option<(Seq<char>, Seq<char>)>,
    HitError,
> {
    match method_of(conf@.method) {
        FetchMethod::JsonApi => json_hit(
            body,
            conf@.anchor_tag,
            conf@.anchor_text,
            conf@.version_tag,
        ),
        FetchMethod::HtmlScrape => html_hit(
            conf@.page_url,
            body,
            conf@.anchor_tag,
            conf@.anchor_text,
            conf@.version_tag,
        ),
    }
}

/// Finds the hit in the body of the entry's page, with the extractor that
/// its method selects.
pub fn find_hit(conf: &Config, body: &str) -> (r: Result<Option<Hit>, HitError>)
    ensures
        hit_outcome(r) == page_hit(*conf, body@),
{
    match conf.fetch_method() {
        FetchMethod::JsonApi => extract_data_from_json(body, conf),
        FetchMethod::HtmlScrape => extract_data_from_html(body, conf),
    }
}

/// What a hit leads to: the kind of download to fetch, or nothing when the
/// version is not newer or the link's ending is not recognised.
pub open spec fn download_plan(
    recorded: Option<Seq<char>>,
    version: Seq<char>,
    url: Seq<char>,
    target_exists: bool,
) -> Option<Container> {
    if update_wanted(version, recorded, target_exists) {
        container_of(url)
    } else {
        None
    }
}

/// Decides whether a hit is downloaded, and as what kind of file.
pub fn plan_download(conf: &Config, hit: &Hit, target_exists: bool) -> (r: Option<Container>)
    ensures
        r == download_plan(conf@.version, hit.version@, hit.download_url@, target_exists),
{
    if should_update(hit.version.as_str(), &conf.version, target_exists) {
        container_for(hit.download_url.as_str())
    } else {
        None
    }
}

/// What a section's run does once its page is read.
#[derive(Debug, PartialEq)]
pub enum SectionStep {
    /// Nothing to install: no matching link, a version that is not newer,
    /// or a link whose ending is not recognised.
    Skip,
    /// Download `url`, a file of kind `kind` that holds version `version`.
    Download { url: String, kind: Container, version: String },
}

/// The step that follows reading the page `body`.
pub open spec fn step_after_page(conf: Config, body: Seq<char>, target_exists: bool) -> Result<
    Option<(Seq<char>, Container, Seq<char>)>,
    HitError,
> {
    match page_hit(conf, body) {
        Err(e) => Err(e),
        Ok(None) => Ok(None),
        Ok(Some((version, url))) => match download_plan(
            conf@.version,
            version,
            url,
            target_exists,
        ) {
            None => Ok(None),
            Some(kind) => Ok(Some((url, kind, version))),
        },
    }
}

/// A step as values: `None` for `Skip`, else (url, kind, version).
pub open spec fn step_view(r: Result<SectionStep, HitError>) -> Result<
    Option<(Seq<char>, Container, Seq<char>)>,
    HitError,
> {
    match r {
        Ok(SectionStep::Skip) => Ok(None),
        Ok(SectionStep::Download { url, kind, version }) => Ok(Some((url@, kind, version@))),
        Err(e) => Err(e),
    }
}

/// Decides, from the body of the entry's page and whether its file is on
/// disk, whether the run stops here or downloads a link.
pub fn after_page(conf: &Config, body: &str, target_exists: bool) -> (r: Result<
    SectionStep,
    HitError,
>)
    ensures
        step_view(r) == step_after_page(*conf, body@, target_exists),
{
    let hit = match find_hit(conf, body) {
        Err(e) => return Err(e),
        Ok(None) => return Ok(SectionStep::Skip),
        Ok(Some(h)) => h,
    };
    match plan_download(conf, &hit, target_exists) {
        None => Ok(SectionStep::Skip),
        Some(kind) => Ok(SectionStep::Download { url: hit.download_url, kind, version: hit.version }),
    }
}

} // verus!
