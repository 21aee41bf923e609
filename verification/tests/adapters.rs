use autoseeker::actors::driven::brightdata::jobs::JobPosting;
use autoseeker::actors::driven::brightdata::snapshots::Snapshot as RecordSnapshot;
use autoseeker::adapters::driven::indeed_brightdata;
use autoseeker::adapters::driven::linkedin_brightdata;
use autoseeker::adapters::driven::snapshot_flow::{
    parse_trigger_response_snapshot_id, snapshots_from_records, trigger_body, ReadyWait,
    TriggerError, WaitAction, WaitEvent, READY_TIMEOUT_SECS,
};
use autoseeker::app::ports::types::{IndeedDiscoverInput, LinkedinDiscoverInput, TimeRange};
use serde_json::Value;

fn json(text: &str) -> Value {
    serde_json::from_str(text).unwrap()
}

#[test]
fn trigger_id_from_blank_body_is_an_error() {
    let e = parse_trigger_response_snapshot_id("  \n").err().unwrap();
    assert!(matches!(e, TriggerError::EmptyBody));
    assert_eq!(e.message(), "BrightData trigger returned empty body");
}

#[test]
fn trigger_id_from_json() {
    assert_eq!(parse_trigger_response_snapshot_id("\"s_1\"").ok(), Some("s_1".to_string()));
    assert_eq!(
        parse_trigger_response_snapshot_id(r#" {"snapshot_id":"s_2"} "#).ok(),
        Some("s_2".to_string())
    );
    assert_eq!(
        parse_trigger_response_snapshot_id(r#"{"id":"b","snapshotId":"c"}"#).ok(),
        Some("c".to_string())
    );
    assert_eq!(parse_trigger_response_snapshot_id(r#"{"id":"b"}"#).ok(), Some("b".to_string()));
}

#[test]
fn trigger_id_falls_back_to_trimmed_text() {
    assert_eq!(parse_trigger_response_snapshot_id("  s_raw \n").ok(), Some("s_raw".to_string()));
    assert_eq!(
        parse_trigger_response_snapshot_id(r#"{"id":5}"#).ok(),
        Some(r#"{"id":5}"#.to_string())
    );
    assert_eq!(parse_trigger_response_snapshot_id("[1]").ok(), Some("[1]".to_string()));
}

#[test]
fn ready_wait_backoff() {
    let mut w = ReadyWait::new();
    assert_eq!(READY_TIMEOUT_SECS, 600);
    let mut pauses = Vec::new();
    for _ in 0..6 {
        assert_eq!(w.step(WaitEvent::Tick { deadline_passed: false }), WaitAction::Poll);
        match w.step(WaitEvent::Polled { ready: false }) {
            WaitAction::Sleep(s) => pauses.push(s),
            _ => panic!("expected a pause"),
        }
    }
    assert_eq!(pauses, vec![2, 4, 8, 15, 15, 15]);
    assert_eq!(w.step(WaitEvent::Polled { ready: true }), WaitAction::Ready);
    assert_eq!(w.step(WaitEvent::Tick { deadline_passed: true }), WaitAction::TimedOut);
    assert_eq!(w.pause_secs(), 15);
}

#[test]
fn records_become_snapshots() {
    let records = vec![RecordSnapshot {
        id: "a".to_string(),
        created: "b".to_string(),
        status: "c".to_string(),
        dataset_id: "d".to_string(),
        dataset_size: 9,
    }];
    let s = snapshots_from_records(&records);
    assert_eq!(s.len(), 1);
    assert_eq!(s[0].id, "a");
    assert_eq!(s[0].created, "b");
    assert_eq!(s[0].status, "c");
    assert_eq!(s[0].dataset_id, "d");
    assert_eq!(s[0].dataset_size, 9);
}

#[test]
fn trigger_body_wraps_inputs() {
    assert_eq!(trigger_body(vec![json("1"), json("\"x\"")]), json(r#"{"input":[1,"x"]}"#));
}

#[test]
fn indeed_trigger_request() {
    assert_eq!(
        indeed_brightdata::trigger_params(None),
        "?dataset_id=gd_l4dx9j9sscpvs7no2&notify=false&include_errors=true&type=discover_new&discover_by=keyword&limit_per_input=100"
    );
    assert!(indeed_brightdata::trigger_params(Some(5)).ends_with("limit_per_input=5"));
    let mut a = IndeedDiscoverInput::default();
    a.country = "FR".to_string();
    let b = IndeedDiscoverInput::default();
    let body = indeed_brightdata::trigger_payload(vec![a, b]);
    let items = body.get("input").unwrap().as_array().unwrap();
    assert_eq!(items.len(), 2);
    assert_eq!(items[0].get("country"), Some(&json("\"FR\"")));
    assert_eq!(items[1].get("country"), Some(&json("\"\"")));
}

#[test]
fn linkedin_trigger_request() {
    assert_eq!(
        linkedin_brightdata::trigger_params(None),
        "?dataset_id=gd_lpfll7v5hcqtkxl6l&notify=false&include_errors=true&type=discover_new&discover_by=keyword&limit_per_input=100"
    );
    assert!(linkedin_brightdata::trigger_params(Some(50)).ends_with("limit_per_input=50"));
    let mut a = LinkedinDiscoverInput::default();
    a.time_range = Some(TimeRange::AnyTime);
    let body = linkedin_brightdata::trigger_payload(vec![a]);
    let items = body.get("input").unwrap().as_array().unwrap();
    assert_eq!(items.len(), 1);
    assert_eq!(items[0].get("time_range"), Some(&json("\"Any time\"")));
}

#[test]
fn indeed_jobs_from_json_array() {
    let body = r#"
    [
      {"url": "https://i/1", "title": "Dev", "company": {"name": "Acme"}, "location": ["", "Paris"],
       "description_text": "  ", "description": "Do things", "date_posted": "today"},
      {"error": "boom", "url": "https://i/2"},
      {"company_name": "NoTitle"},
      "not an object",
      {"job_url": "https://i/3", "jobTitle": "  "}
    ]"#;
    let jobs = indeed_brightdata::parse_jobs_from_snapshot_body(body);
    assert_eq!(jobs.len(), 2);
    assert_eq!(jobs[0].url, "https://i/1");
    assert_eq!(jobs[0].job_title, "Dev");
    assert_eq!(jobs[0].company_name, "Acme");
    assert_eq!(jobs[0].job_location, "Paris");
    assert_eq!(jobs[0].job_description, "Do things");
    assert_eq!(jobs[0].job_posted_date, "today");
    assert_eq!(jobs[1].url, "https://i/3");
    assert_eq!(jobs[1].job_title, "");
}

#[test]
fn indeed_jobs_from_json_lines() {
    let body = "{\"url\":\"u1\",\"job_title\":\"t1\"}\r\n\n  not json\n{\"errors\":[1],\"url\":\"u2\"}\n{\"link\":\"u3\",\"position\":\"t3\"}\n";
    let jobs = indeed_brightdata::parse_jobs_from_snapshot_body(body);
    assert_eq!(jobs.len(), 2);
    assert_eq!(jobs[0].url, "u1");
    assert_eq!(jobs[0].job_title, "t1");
    assert_eq!(jobs[1].url, "u3");
    assert_eq!(jobs[1].job_title, "t3");
}

#[test]
fn indeed_json_lines_and_json_list_give_the_same_jobs() {
    let objects = [
        "{\"url\":\"u1\",\"job_title\":\"t1\",\"company\":{\"name\":\"C\"}}",
        "{\"error\":\"boom\",\"url\":\"u2\"}",
        "{\"link\":\"u3\",\"location\":[\"\",\"L\"]}",
    ];
    let lines_body = format!("\n{}\n   \nnot json\n{}\n{}\n", objects[0], objects[1], objects[2]);
    let list_body = format!("[{}]", objects.join(","));
    let from_lines = indeed_brightdata::parse_jobs_from_snapshot_body(&lines_body);
    let from_list = indeed_brightdata::parse_jobs_from_snapshot_body(&list_body);
    assert_eq!(from_lines.len(), 2);
    assert_eq!(from_list.len(), 2);
    for (a, b) in from_lines.iter().zip(from_list.iter()) {
        assert_eq!(a.url, b.url);
        assert_eq!(a.job_title, b.job_title);
        assert_eq!(a.company_name, b.company_name);
        assert_eq!(a.job_location, b.job_location);
    }
    assert_eq!(from_list[0].company_name, "C");
    assert_eq!(from_list[1].job_location, "L");
}

#[test]
fn indeed_blank_body_has_no_jobs() {
    assert!(indeed_brightdata::parse_jobs_from_snapshot_body(" \n ").is_empty());
    assert!(indeed_brightdata::parse_jobs_from_snapshot_body("{}").is_empty());
}

#[test]
fn extract_string_key_order() {
    let record = json(r#"{"title": "B", "job_title": "A"}"#);
    assert_eq!(indeed_brightdata::extract_string(&record, &vec!["job_title", "title"]), "A");
    assert_eq!(indeed_brightdata::extract_string(&record, &vec!["title", "job_title"]), "B");
    assert_eq!(indeed_brightdata::extract_string(&json("[1]"), &vec!["title"]), "");
    assert_eq!(indeed_brightdata::extract_string(&record, &vec!["missing"]), "");
}

fn posting(url: Option<&str>, title: Option<&str>) -> JobPosting {
    JobPosting {
        url: url.map(|s| s.to_string()),
        job_posting_id: None,
        job_title: title.map(|s| s.to_string()),
        company_name: Some("Acme".to_string()),
        job_location: None,
        job_summary: Some("summary".to_string()),
        job_description_formatted: None,
        job_seniority_level: None,
        job_employment_type: None,
        job_function: None,
        job_industries: None,
        job_posted_date: Some("2024".to_string()),
        application_availability: None,
    }
}

#[test]
fn linkedin_postings_become_jobs() {
    let mut with_formatted = posting(Some("u1"), None);
    with_formatted.job_description_formatted = Some("<p>formatted</p>".to_string());
    let postings = vec![with_formatted, posting(None, None), posting(None, Some("t3"))];
    let jobs = linkedin_brightdata::jobs_from_postings(&postings);
    assert_eq!(jobs.len(), 2);
    assert_eq!(jobs[0].url, "u1");
    assert_eq!(jobs[0].job_title, "");
    assert_eq!(jobs[0].job_description, "<p>formatted</p>");
    assert_eq!(jobs[0].company_name, "Acme");
    assert_eq!(jobs[0].job_location, "");
    assert_eq!(jobs[1].job_title, "t3");
    assert_eq!(jobs[1].job_description, "summary");
    assert_eq!(jobs[1].job_posted_date, "2024");
}

#[test]
fn linkedin_body_trimming() {
    assert_eq!(linkedin_brightdata::trimmed_snapshot_body("  \n\t"), None);
    assert_eq!(linkedin_brightdata::trimmed_snapshot_body(" [] \n"), Some("[]".to_string()));
}
