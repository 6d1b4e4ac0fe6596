use lifter::config::Config;
use lifter::hit::{extract_data_from_html, extract_data_from_json, resolve_href, Hit, HitError};
use lifter::json_path::json_path_is_supported;
use lifter::pattern::matches_fully;
use lifter::process::find_hit;

#[test]
fn relative_links_resolve_against_page() {
    let page = "https://example.com/sub/page";
    assert_eq!(resolve_href(page, "/abs/path"), Some("https://example.com/abs/path".to_string()));
    assert_eq!(resolve_href(page, "rel/path"), Some("https://example.com/sub/rel/path".to_string()));
    assert_eq!(resolve_href(page, "https://other.com/x"), Some("https://other.com/x".to_string()));
}

#[test]
fn link_resolution_drops_query_and_keeps_scheme() {
    let page = "https://example.com/a/b/page?tab=1";
    assert_eq!(resolve_href(page, "file.zip"), Some("https://example.com/a/b/file.zip".to_string()));
    assert_eq!(resolve_href(page, "../x.zip"), Some("https://example.com/x.zip".to_string()));
    assert_eq!(resolve_href(page, "//cdn.example.org/y.zip"), Some("https://cdn.example.org/y.zip".to_string()));
    assert_eq!(resolve_href("not a url", "x.zip"), None);
}

fn html_conf(anchor_tag: &str, anchor_text: &str, version_tag: Option<&str>) -> Config {
    let mut c = Config::new();
    c.page_url = "https://example.com/sub/releases".to_string();
    c.anchor_tag = anchor_tag.to_string();
    c.anchor_text = anchor_text.to_string();
    c.version_tag = version_tag.map(String::from);
    c
}

const PAGE: &str = r#"<html><body>
<h1 class="title"> Release <span>v2.1.0</span> </h1>
<ul class="assets">
  <li><a href="/dl/tool-2.1.0-windows.zip">tool-2.1.0-windows.zip</a></li>
  <li><a href="files/tool-2.1.0-linux.tar.gz">
      tool-2.1.0-linux.tar.gz
  </a></li>
  <li><a>tool-2.1.0-linux.tar.gz</a></li>
</ul>
</body></html>"#;

#[test]
fn html_link_text_must_match_whole() {
    let conf = html_conf("ul.assets a", r"tool-[\d.]+-linux\.tar\.gz", Some("h1.title"));
    let hit = extract_data_from_html(PAGE, &conf).unwrap();
    assert_eq!(
        hit,
        Some(Hit {
            version: "Release v2.1.0".to_string(),
            download_url: "https://example.com/sub/files/tool-2.1.0-linux.tar.gz".to_string(),
        })
    );
    let partial = html_conf("ul.assets a", r"linux", Some("h1.title"));
    assert_eq!(extract_data_from_html(PAGE, &partial).unwrap(), None);
}

#[test]
fn html_root_relative_link() {
    let conf = html_conf("ul.assets a", r"tool-.*-windows\.zip", Some("h1.title span"));
    let hit = extract_data_from_html(PAGE, &conf).unwrap().unwrap();
    assert_eq!(hit.version, "v2.1.0");
    assert_eq!(hit.download_url, "https://example.com/dl/tool-2.1.0-windows.zip");
}

#[test]
fn html_soft_failures_give_no_hit() {
    let bad_selector = html_conf("ul[[[", "tool.*", Some("h1"));
    assert_eq!(extract_data_from_html(PAGE, &bad_selector), Ok(None));
    let no_version = html_conf("ul.assets a", r"tool-.*-windows\.zip", Some("h2.none"));
    assert_eq!(extract_data_from_html(PAGE, &no_version), Ok(None));
    let no_version_selector = html_conf("ul.assets a", r"tool-.*-windows\.zip", None);
    assert_eq!(extract_data_from_html(PAGE, &no_version_selector), Ok(None));
    let bad_version_selector = html_conf("ul.assets a", r"tool-.*-windows\.zip", Some("h1[[["));
    assert_eq!(extract_data_from_html(PAGE, &bad_version_selector), Ok(None));
}

#[test]
fn html_bad_pattern_is_an_error() {
    let conf = html_conf("ul.assets a", "(tool", Some("h1"));
    assert_eq!(extract_data_from_html(PAGE, &conf), Err(HitError::BadPattern));
}

const API: &str = r#"{"tag_name": "v3.0", "count": 7,
 "assets": [{"url": 5}, {"url": "https://example.com/t-3.0-mac.zip"},
            {"url": "https://example.com/t-3.0-linux.tar.gz"}]}"#;

fn json_conf(anchor_tag: &str, anchor_text: &str, version_tag: Option<&str>) -> Config {
    let mut c = html_conf(anchor_tag, anchor_text, version_tag);
    c.method = "api_json".to_string();
    c
}

#[test]
fn json_pattern_matches_anywhere() {
    let conf = json_conf("$.assets.*.url", "linux", Some("$.tag_name"));
    let hit = extract_data_from_json(API, &conf).unwrap();
    assert_eq!(
        hit,
        Some(Hit {
            version: "v3.0".to_string(),
            download_url: "https://example.com/t-3.0-linux.tar.gz".to_string(),
        })
    );
    assert_eq!(find_hit(&conf, API), extract_data_from_json(API, &conf));
    let none = json_conf("$.assets.*.url", "windows", Some("$.tag_name"));
    assert_eq!(extract_data_from_json(API, &none), Ok(None));
}

#[test]
fn json_index_forms_that_evaluate() {
    let c = json_conf("$.assets[1,2].url", "linux", Some("$.tag_name"));
    assert_eq!(
        extract_data_from_json(API, &c).unwrap().map(|h| h.download_url),
        Some("https://example.com/t-3.0-linux.tar.gz".to_string())
    );
    let c = json_conf("$.assets[-1:].url", "linux", Some("$.tag_name"));
    assert!(extract_data_from_json(API, &c).unwrap().is_some());
    let c = json_conf("$.assets[2].url", "linux", Some("$['tag_name']"));
    assert!(extract_data_from_json(API, &c).unwrap().is_some());
}

#[test]
fn json_path_support() {
    assert!(json_path_is_supported("$.assets.*.browser_download_url"));
    assert!(json_path_is_supported("$.a[0]"));
    assert!(json_path_is_supported("$.a[ 1 , 2 ]"));
    assert!(json_path_is_supported("$.a[-2:]"));
    assert!(json_path_is_supported("$['my-key'][?(@.x > -1.5)]"));
    assert!(!json_path_is_supported("$.a[-1,0]"));
    assert!(!json_path_is_supported("$.a[1.5,2]"));
    assert!(!json_path_is_supported("$.a[1e3,2]"));
    assert!(!json_path_is_supported("$.a[1234567890123456789]"));
    assert!(!json_path_is_supported("$.a[0:4:0]"));
    assert!(!json_path_is_supported("$.a[?(@[::0])]"));
}

#[test]
fn json_failures_are_errors() {
    let c = json_conf("$.assets.*.url", "linux", None);
    assert_eq!(extract_data_from_json(API, &c), Err(HitError::MissingVersionSelector));
    let c = json_conf("$.assets.*.url", "linux", Some("$.tag_name"));
    assert_eq!(extract_data_from_json("{not json", &c), Err(HitError::BadQuery));
    let c = json_conf("$.assets.*.url", "linux", Some("$.[[["));
    assert_eq!(extract_data_from_json(API, &c), Err(HitError::BadQuery));
    let c = json_conf("$.assets.*.url", "linux", Some("$.missing"));
    assert_eq!(extract_data_from_json(API, &c), Err(HitError::NoVersion));
    let c = json_conf("$.assets.*.url", "linux", Some("$.count"));
    assert_eq!(extract_data_from_json(API, &c), Err(HitError::NoVersion));
    let c = json_conf("$.nothing", "linux", Some("$.tag_name"));
    assert_eq!(extract_data_from_json(API, &c), Err(HitError::NoCandidates));
    let c = json_conf("$.assets[-1,0].url", "linux", Some("$.tag_name"));
    assert_eq!(extract_data_from_json(API, &c), Err(HitError::BadQuery));
    let c = json_conf("$.assets[0.5,1].url", "linux", Some("$.tag_name"));
    assert_eq!(extract_data_from_json(API, &c), Err(HitError::BadQuery));
    let c = json_conf("$.assets[99999999999999999999].url", "linux", Some("$.tag_name"));
    assert_eq!(extract_data_from_json(API, &c), Err(HitError::BadQuery));
    let c = json_conf("$.assets[::0].url", "linux", Some("$.tag_name"));
    assert_eq!(extract_data_from_json(API, &c), Err(HitError::BadQuery));
    let c = json_conf("$.assets.*.url", "linux", Some("$.tags[-1,0]"));
    assert_eq!(extract_data_from_json(API, &c), Err(HitError::BadQuery));
    let c = json_conf("$.assets.*.url", "(linux", Some("$.tag_name"));
    assert_eq!(extract_data_from_json(API, &c), Err(HitError::BadPattern));
}

#[test]
fn full_match_is_anchored() {
    assert_eq!(matches_fully("ab+", "abbb"), Some(true));
    assert_eq!(matches_fully("ab+", "xabbb"), Some(false));
    assert_eq!(matches_fully("ab+", "abbbx"), Some(false));
    assert_eq!(matches_fully("(ab", "ab"), None);
    assert_eq!(matches_fully("a|b", "xb"), Some(false));
    assert_eq!(matches_fully("a|b", "b"), Some(true));
}
