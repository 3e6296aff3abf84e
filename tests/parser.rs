use telesearch_desktop::catalog::{chat_list_args, search_args};
use telesearch_desktop::parse::{
    first_integer_token, legacy_count_of, parse_indexing_progress, parse_sync_progress,
    status_from_type,
};
use telesearch_desktop::progress::{Status, WorkerRecord};
use telesearch_desktop::text::{join_lines, same_text};

fn record(kind: Option<&str>) -> WorkerRecord {
    WorkerRecord {
        record_type: kind.map(|k| k.to_string()),
        message: None,
        current: None,
        total: None,
        percentage: None,
        elapsed_sec: None,
        eta_sec: None,
        rate_bits: None,
        rolled_back: None,
    }
}

#[test]
fn structured_progress_line() {
    let mut r = record(Some("progress"));
    r.current = Some(5);
    r.total = Some(10);
    let p = parse_sync_progress("{\"type\":\"progress\",\"current\":5,\"total\":10}", Some(r));
    assert_eq!(p.status, Status::Progress);
    assert_eq!(p.current, Some(5));
    assert_eq!(p.total, Some(10));
    assert_eq!(p.message, "");
    assert_eq!(p.percentage, None);
    assert_eq!(p.elapsed_sec, None);
    assert_eq!(p.eta_sec, None);
    assert_eq!(p.rate_bits, None);
    assert_eq!(p.rolled_back, None);
}

#[test]
fn structured_fields_pass_through() {
    let mut r = record(Some("complete"));
    r.message = Some("done".to_string());
    r.percentage = Some(100);
    r.elapsed_sec = Some(12);
    r.eta_sec = Some(0);
    r.rate_bits = Some(2.5f64.to_bits());
    r.rolled_back = Some(3);
    let p = parse_indexing_progress("ignored", Some(r.clone()));
    assert_eq!(p.status, Status::Completed);
    assert_eq!(p.message, "done");
    assert_eq!(p.percentage, Some(100));
    assert_eq!(p.elapsed_sec, Some(12));
    assert_eq!(p.rolled_back, Some(3));
    assert_eq!(p.rate_bits.map(f64::from_bits), Some(2.5));
    let s = parse_sync_progress("ignored", Some(r));
    assert_eq!(s.rate_bits, None);
}

#[test]
fn record_types_map_to_statuses() {
    assert_eq!(status_from_type("complete"), Status::Completed);
    assert_eq!(status_from_type("cancelled"), Status::Cancelled);
    assert_eq!(status_from_type("error"), Status::Error);
    assert_eq!(status_from_type("rolling_back"), Status::RollingBack);
    assert_eq!(status_from_type("cancelling"), Status::Cancelling);
    assert_eq!(status_from_type("start"), Status::Start);
    assert_eq!(status_from_type("info"), Status::Info);
    assert_eq!(status_from_type("progress"), Status::Progress);
    assert_eq!(status_from_type("completed"), Status::Progress);
    assert_eq!(status_from_type(""), Status::Progress);
    assert_eq!(parse_sync_progress("x", Some(record(None))).status, Status::Progress);
    assert_eq!(Status::RollingBack.as_str(), "rolling_back");
    assert_eq!(Status::Completed.as_str(), "completed");
}

#[test]
fn legacy_marker_line_reports_count() {
    let p = parse_indexing_progress("Collected 42 messages", None);
    assert_eq!(p.status, Status::Progress);
    assert_eq!(p.current, Some(42));
    assert_eq!(p.message, "Collected 42 messages");
    let s = parse_sync_progress("Collected 42 messages", None);
    assert_eq!(s.current, Some(42));
}

#[test]
fn free_text_line_is_verbatim() {
    let p = parse_indexing_progress("working hard", None);
    assert_eq!(p.status, Status::Progress);
    assert_eq!(p.current, None);
    assert_eq!(p.message, "working hard");
    assert_eq!(p.total, None);
}

#[test]
fn legacy_count_edges() {
    assert_eq!(legacy_count_of("Fetched 42 messages"), None);
    assert_eq!(legacy_count_of("Collected many messages"), None);
    assert_eq!(legacy_count_of("Collected\tx -7 then 9"), Some(-7));
    assert_eq!(legacy_count_of("Collected +8"), Some(8));
    assert_eq!(legacy_count_of("Collected 99999999999999999999 then 5"), Some(5));
    assert_eq!(legacy_count_of("Collected: 4,"), None);
}

#[test]
fn first_integer_of_tokens() {
    let t = vec!["a".to_string(), "1x".to_string(), "-".to_string(), "12".to_string(), "3".to_string()];
    assert_eq!(first_integer_token(&t), Some(12));
    assert_eq!(first_integer_token(&vec![]), None);
}

#[test]
fn text_helpers() {
    assert!(same_text("abc", "abc"));
    assert!(!same_text("abc", "abd"));
    assert!(!same_text("ab", "abc"));
    assert_eq!(join_lines(&vec![]), "");
    assert_eq!(join_lines(&vec!["one".to_string()]), "one");
    assert_eq!(join_lines(&vec!["a".to_string(), "".to_string(), "c".to_string()]), "a\n\nc");
}

#[test]
fn search_query_needs_three_characters() {
    assert_eq!(search_args("ab", None, None), Err("검색어는 최소 3글자 이상이어야 합니다.".to_string()));
    assert!(search_args("한국어", None, None).is_ok());
    assert_eq!(
        search_args("hello", Some(20), Some(-5)).unwrap(),
        vec!["searcher.py", "--json", "hello", "--limit", "20", "--chat-id", "-5"]
    );
    assert_eq!(search_args("abc", None, None).unwrap(), vec!["searcher.py", "--json", "abc"]);
    assert_eq!(chat_list_args(), vec!["chat_list.py", "--format", "json"]);
}
