use autoseeker::actors::driven::brightdata::client::{
    authorization_value, endpoint_url, progress_endpoint, progress_is_ready, snapshot_endpoint,
    snapshots_endpoint, trigger_endpoint, ClientError,
};
use autoseeker::actors::driven::brightdata::jobs::{JobFetcherParams, LIMIT_PER_INPUT};
use autoseeker::actors::driven::brightdata::snapshots::{render_snapshot_list, Snapshot, SnapshotsResponse};
use autoseeker::actors::driven::file_saver::{jobs_path, tmp_path_for, FileSaver};
use serde_json::Value;

fn json(text: &str) -> Value {
    serde_json::from_str(text).unwrap()
}

#[test]
fn endpoints_and_urls() {
    assert_eq!(snapshots_endpoint(), "/snapshots");
    assert_eq!(snapshot_endpoint("s_1"), "/snapshot/s_1");
    assert_eq!(progress_endpoint("s_1"), "/progress/s_1");
    assert_eq!(trigger_endpoint("?a=1"), "/trigger?a=1");
    assert_eq!(
        endpoint_url("/snapshots"),
        "https://api.brightdata.com/datasets/v3/snapshots"
    );
}

#[test]
fn authorization_of_a_plain_token() {
    assert_eq!(authorization_value("abc123").ok(), Some("Bearer abc123".to_string()));
    assert_eq!(authorization_value("a\tb").ok(), Some("Bearer a\tb".to_string()));
    assert_eq!(authorization_value("é").ok(), Some("Bearer é".to_string()));
}

#[test]
fn authorization_refuses_control_characters() {
    let err = authorization_value("abc\n").err().unwrap();
    assert!(matches!(err, ClientError::InvalidToken));
    assert_eq!(err.message(), "invalid token for Authorization header");
    assert!(authorization_value("a\u{7f}").is_err());
}

#[test]
fn progress_ready_ignores_ascii_case() {
    assert!(matches!(progress_is_ready(r#"{"status":"ready"}"#), Ok(true)));
    assert!(matches!(progress_is_ready(r#"{"status":"READY"}"#), Ok(true)));
    assert!(matches!(progress_is_ready(r#"{"status":"Ready","x":1}"#), Ok(true)));
}

#[test]
fn progress_not_ready() {
    assert!(matches!(progress_is_ready(r#"{"status":"running"}"#), Ok(false)));
    assert!(matches!(progress_is_ready(r#"{"status":" ready"}"#), Ok(false)));
    assert!(matches!(progress_is_ready(r#"{}"#), Ok(false)));
    assert!(matches!(progress_is_ready(r#"{"status":1}"#), Ok(false)));
    assert!(matches!(progress_is_ready(r#""ready""#), Ok(false)));
}

#[test]
fn progress_that_is_no_json() {
    let err = progress_is_ready("not json").err().unwrap();
    assert!(matches!(err, ClientError::ProgressParse));
    assert_eq!(err.message(), "failed parsing progress response");
}

#[test]
fn job_fetcher_params_defaults() {
    let p = JobFetcherParams::new("Paris".to_string(), "Rust".to_string());
    assert_eq!(p.limit_per_input, LIMIT_PER_INPUT);
    assert_eq!(p.limit_per_input, 10);
    assert_eq!(p.dataset_id, "gd_lpfll7v5hcqtkxl6l");
    assert_eq!(
        p.get_params(),
        "dataset_id=gd_lpfll7v5hcqtkxl6l&notify=false&include_errors=true&type=discover_new&discover_by=keyword&limit_per_input=10"
    );
}

#[test]
fn job_fetcher_params_setters() {
    let mut p = JobFetcherParams::new("Paris".to_string(), "Rust".to_string());
    p.set_limit_per_input(250);
    p.set_dataset_id("gd_other".to_string());
    assert_eq!(
        p.get_params(),
        "dataset_id=gd_other&notify=false&include_errors=true&type=discover_new&discover_by=keyword&limit_per_input=250"
    );
    assert_eq!(p.location, "Paris");
    assert_eq!(p.keyword, "Rust");
}

#[test]
fn job_fetcher_payload() {
    let p = JobFetcherParams::new("Montpellier".to_string(), "Rust".to_string());
    let expected = json(
        r#"{"input":[{"location":"Montpellier","keyword":"Rust","country":"","time_range":"","job_type":"","experience_level":"","remote":"","company":"","location_radius":""}]}"#,
    );
    assert_eq!(p.get_payload(), expected);
}

#[test]
fn empty_snapshot_table() {
    let r = SnapshotsResponse { snapshots: Vec::new() };
    assert_eq!(r.render(), "No snapshots found.\n");
}

#[test]
fn snapshot_table_layout() {
    let r = SnapshotsResponse {
        snapshots: vec![
            Snapshot {
                id: "s_abc".to_string(),
                created: "2024-05-01".to_string(),
                status: "ready".to_string(),
                dataset_id: "gd_1".to_string(),
                dataset_size: 12345,
            },
            Snapshot {
                id: "s_2".to_string(),
                created: "x".to_string(),
                status: "running".to_string(),
                dataset_id: "gd_long_id".to_string(),
                dataset_size: 7,
            },
        ],
    };
    let expected = "\
+-------+------------+---------+------------+-------+
| ID    | Created    | Status  | Dataset ID | Size  |
+=======+============+=========+============+=======+
| s_abc | 2024-05-01 | ready   | gd_1       | 12345 |
| s_2   | x          | running | gd_long_id | 7     |
+-------+------------+---------+------------+-------+
";
    assert_eq!(r.render(), expected);
    let lines: Vec<&str> = expected.lines().collect();
    assert!(lines.iter().all(|l| l.chars().count() == lines[0].chars().count()));
}

#[test]
fn snapshot_table_counts_bytes_for_widths() {
    let rows = vec![autoseeker::app::ports::types::Snapshot {
        id: "é".to_string(),
        created: "c".to_string(),
        status: "s".to_string(),
        dataset_id: "d".to_string(),
        dataset_size: 0,
    }];
    let table = render_snapshot_list(&rows);
    let expected = "\
+----+---------+--------+------------+------+
| ID | Created | Status | Dataset ID | Size |
+====+=========+========+============+======+
| é  | c       | s      | d          | 0    |
+----+---------+--------+------------+------+
";
    assert_eq!(table, expected);
}

#[test]
fn tmp_paths() {
    assert_eq!(jobs_path(), "jobs.json");
    assert_eq!(tmp_path_for("jobs.json"), "jobs.json.tmp");
    assert_eq!(tmp_path_for("out/a.json"), "out/a.json.tmp");
    assert_eq!(tmp_path_for(".."), "jobs.json.tmp");
    assert_eq!(tmp_path_for(""), "jobs.json.tmp");
    let _ = FileSaver::new();
    let _ = FileSaver::default();
}
