use lifter::archive::Container;
use lifter::config::Config;
use lifter::fetch::{after_attempt, backoff, FetchAction, FetchOutcome, MAX_ATTEMPTS};
use lifter::gate::{should_update, version_le};
use lifter::hit::Hit;
use lifter::process::{after_page, plan_download, FetchMethod, SectionStep};

#[test]
fn not_newer_version_is_skipped_when_target_exists() {
    let recorded = Some("13.0.0".to_string());
    assert!(!should_update("13.0.0", &recorded, true));
    assert!(!should_update("12.1.1", &recorded, true));
    assert!(should_update("13.0.1", &recorded, true));
}

#[test]
fn missing_target_always_updates() {
    let recorded = Some("13.0.0".to_string());
    assert!(should_update("13.0.0", &recorded, false));
    assert!(should_update("1.0.0", &recorded, false));
    assert!(should_update("1.0.0", &None, true));
}

#[test]
fn versions_compare_as_strings() {
    assert!(version_le("10.0.0", "9.0.0"));
    assert!(!version_le("9.0.0", "10.0.0"));
    assert!(version_le("", "a"));
    assert!(version_le("abc", "abc"));
    assert!(version_le("ab", "abc"));
    assert!(!version_le("abc", "ab"));
    assert!(should_update("9", &Some("10".to_string()), true));
    assert!(!should_update("10", &Some("9".to_string()), true));
}

#[test]
fn three_unavailable_answers_then_success() {
    let outcomes = [
        FetchOutcome::Status(503),
        FetchOutcome::Status(503),
        FetchOutcome::Status(503),
        FetchOutcome::Status(200),
    ];
    let mut sleeps = Vec::new();
    let mut accepted_at = None;
    for (i, outcome) in outcomes.iter().enumerate() {
        match after_attempt(i as u32 + 1, *outcome) {
            FetchAction::Retry { wait_secs } => sleeps.push(wait_secs),
            FetchAction::Accept => {
                accepted_at = Some(i + 1);
                break;
            }
            other => panic!("unexpected {:?}", other),
        }
    }
    assert_eq!(sleeps, vec![4, 8, 12]);
    assert_eq!(accepted_at, Some(4));
}

#[test]
fn retry_rules() {
    assert_eq!(after_attempt(1, FetchOutcome::Status(204)), FetchAction::Accept);
    assert_eq!(after_attempt(1, FetchOutcome::Status(404)), FetchAction::Reject { status: 404 });
    assert_eq!(after_attempt(2, FetchOutcome::Status(301)), FetchAction::Reject { status: 301 });
    assert_eq!(after_attempt(2, FetchOutcome::ConnectionFailed), FetchAction::Retry { wait_secs: 8 });
    for s in [408u16, 425, 429, 500, 502, 503, 504] {
        assert_eq!(after_attempt(1, FetchOutcome::Status(s)), FetchAction::Retry { wait_secs: 4 });
        assert_eq!(after_attempt(MAX_ATTEMPTS, FetchOutcome::Status(s)), FetchAction::GiveUp);
    }
    assert_eq!(after_attempt(9, FetchOutcome::Status(503)), FetchAction::Retry { wait_secs: 36 });
    assert_eq!(after_attempt(MAX_ATTEMPTS, FetchOutcome::ConnectionFailed), FetchAction::GiveUp);
    assert_eq!(backoff(10), 40);
    assert_eq!(backoff(0), 0);
}

fn conf(method: &str, version: Option<&str>) -> Config {
    let mut c = Config::new();
    c.method = method.to_string();
    c.version = version.map(String::from);
    c
}

#[test]
fn method_selects_extractor() {
    assert_eq!(conf("api_json", None).fetch_method(), FetchMethod::JsonApi);
    assert_eq!(conf("scrape", None).fetch_method(), FetchMethod::HtmlScrape);
    assert_eq!(conf("", None).fetch_method(), FetchMethod::HtmlScrape);
}

#[test]
fn download_plan_combines_gate_and_ending() {
    let hit = Hit {
        version: "14.0.0".to_string(),
        download_url: "https://example.com/rg-14.0.0.tar.gz".to_string(),
    };
    assert_eq!(plan_download(&conf("", Some("13.0.0")), &hit, true), Some(Container::TarGz));
    assert_eq!(plan_download(&conf("", Some("14.0.0")), &hit, true), None);
    assert_eq!(plan_download(&conf("", Some("14.0.0")), &hit, false), Some(Container::TarGz));
    let odd = Hit { version: "2".to_string(), download_url: "https://example.com/a.deb".to_string() };
    assert_eq!(plan_download(&conf("", Some("1")), &odd, true), None);
}

#[test]
fn step_after_page_reads_hit_and_gate() {
    let mut c = conf("api_json", Some("1.0"));
    c.anchor_tag = "$.assets.*".to_string();
    c.anchor_text = "linux".to_string();
    c.version_tag = Some("$.tag".to_string());
    let body = r#"{"tag": "2.0", "assets": ["https://e.com/t-linux.zip", "https://e.com/t-mac.zip"]}"#;
    assert_eq!(
        after_page(&c, body, true),
        Ok(SectionStep::Download {
            url: "https://e.com/t-linux.zip".to_string(),
            kind: Container::Zip,
            version: "2.0".to_string(),
        })
    );
    c.version = Some("2.0".to_string());
    assert_eq!(after_page(&c, body, true), Ok(SectionStep::Skip));
    c.anchor_text = "windows".to_string();
    assert_eq!(after_page(&c, body, false), Ok(SectionStep::Skip));
}
