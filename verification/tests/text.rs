use autoseeker::app::services::indeed_job::IndeedJobFetcherService;
use autoseeker::app::services::indeed_snapshot::IndeedSnapshotService;
use autoseeker::app::services::job::JobFetcherService;
use autoseeker::app::services::linkedin_snapshot::LinkedinSnapshotService;
use autoseeker::app::services::snapshot::SnapshotService;
use autoseeker::text::{
    chars_of, decimal_string, nonblank_trimmed_lines, parse_u64_str, str_eq,
    str_eq_ignore_ascii_case, trim_str,
};

#[test]
fn decimal_texts() {
    assert_eq!(decimal_string(0), "0");
    assert_eq!(decimal_string(7), "7");
    assert_eq!(decimal_string(1200), "1200");
    assert_eq!(decimal_string(u64::MAX), "18446744073709551615");
}

#[test]
fn decimal_parsing() {
    assert_eq!(parse_u64_str("42"), Some(42));
    assert_eq!(parse_u64_str("+42"), Some(42));
    assert_eq!(parse_u64_str("007"), Some(7));
    assert_eq!(parse_u64_str("18446744073709551615"), Some(u64::MAX));
    assert_eq!(parse_u64_str("18446744073709551616"), None);
    assert_eq!(parse_u64_str(""), None);
    assert_eq!(parse_u64_str("+"), None);
    assert_eq!(parse_u64_str("-1"), None);
    assert_eq!(parse_u64_str(" 1"), None);
    assert_eq!(parse_u64_str("1_000"), None);
}

#[test]
fn line_framing() {
    let lines = nonblank_trimmed_lines("  a \r\n\n b\n\t\nc");
    assert_eq!(lines, vec!["a".to_string(), "b".to_string(), "c".to_string()]);
    assert!(nonblank_trimmed_lines("").is_empty());
    assert!(nonblank_trimmed_lines("\n \n").is_empty());
}

#[test]
fn text_helpers() {
    assert_eq!(trim_str("\u{3000} x \u{a0}"), "x");
    assert!(str_eq("abc", "abc"));
    assert!(!str_eq("abc", "abd"));
    assert!(str_eq_ignore_ascii_case("ReAdY", "ready"));
    assert!(!str_eq_ignore_ascii_case("readyy", "ready"));
    assert!(!str_eq_ignore_ascii_case("rÉady", "réady"));
    assert_eq!(chars_of("héllo"), vec!['h', 'é', 'l', 'l', 'o']);
}

#[test]
fn services_hold_their_clients() {
    let s = JobFetcherService::new(1u8, 2u8);
    assert_eq!((*s.job_client(), *s.job_saver()), (1, 2));
    let s = IndeedJobFetcherService::new(3u8, 4u8);
    assert_eq!((*s.job_client(), *s.job_saver()), (3, 4));
    assert_eq!(*LinkedinSnapshotService::new(5u8).snapshot_client(), 5);
    assert_eq!(*IndeedSnapshotService::new(6u8).snapshot_client(), 6);
    assert_eq!(*SnapshotService::new(7u8).snapshot_client(), 7);
}
