use beeps::handlers::{home_page, post_beep, Status};
use beeps::store::EventLog;

#[test]
fn new_log_is_empty() {
    let log = EventLog::new();
    assert_eq!(log.len(), 0);
    assert_eq!(log.snapshot().len(), 0);
}

#[test]
fn appends_are_visible_in_order() {
    let mut log = EventLog::new();
    log.append("first".to_owned());
    log.append("second".to_owned());
    log.append("third".to_owned());
    let snap = log.snapshot();
    assert_eq!(snap.len(), 3);
    assert_eq!(snap[0].text, "first");
    assert_eq!(snap[1].text, "second");
    assert_eq!(snap[2].text, "third");
}

#[test]
fn timestamps_are_immutable_across_snapshots() {
    let mut log = EventLog::new();
    log.append("hello".to_owned());
    let first = log.snapshot();
    let second = log.snapshot();
    assert_eq!(first[0].timestamp, second[0].timestamp);
    log.append("later".to_owned());
    let third = log.snapshot();
    assert_eq!(first[0].timestamp, third[0].timestamp);
    assert_eq!(first[0].text, third[0].text);
}

#[test]
fn snapshot_is_isolated_from_later_appends() {
    let mut log = EventLog::new();
    log.append("kept".to_owned());
    let snap = log.snapshot();
    log.append("after".to_owned());
    log.append("after again".to_owned());
    assert_eq!(snap.len(), 1);
    assert_eq!(snap[0].text, "kept");
    assert_eq!(log.len(), 3);
}

#[test]
fn display_order_is_reverse_of_append_order() {
    let mut log = EventLog::new();
    log.append("a".to_owned());
    log.append("b".to_owned());
    log.append("c".to_owned());
    let page = home_page(&log);
    assert_eq!(page.len(), 3);
    assert_eq!(page[0].text, "c");
    assert_eq!(page[1].text, "b");
    assert_eq!(page[2].text, "a");
}

#[test]
fn matching_credential_appends_and_reports_created() {
    let mut log = EventLog::new();
    let secret = "s3cret".to_owned();
    let token = "s3cret".to_owned();
    let status = post_beep(&mut log, &secret, &token, "note".to_owned());
    assert_eq!(status, Status::Created);
    let snap = log.snapshot();
    assert_eq!(snap.len(), 1);
    assert_eq!(snap[0].text, "note");
}

#[test]
fn one_byte_off_credential_is_rejected_without_mutation() {
    let mut log = EventLog::new();
    let secret = "s3cret".to_owned();
    let token = "s3creT".to_owned();
    let status = post_beep(&mut log, &secret, &token, "note".to_owned());
    assert_eq!(status, Status::NotFound);
    assert_eq!(log.len(), 0);
}

#[test]
fn credential_comparison_is_case_sensitive_and_untrimmed() {
    let mut log = EventLog::new();
    let secret = "s3cret".to_owned();
    for token in ["S3cret", " s3cret", "s3cret ", "s3cre", "s3crets", ""] {
        let status = post_beep(&mut log, &secret, &token.to_owned(), "note".to_owned());
        assert_eq!(status, Status::NotFound);
        assert_eq!(log.len(), 0);
    }
}

#[test]
fn post_then_reject_then_list_shows_only_first() {
    let secret = "s3cret".to_owned();
    let mut log = EventLog::new();
    let first = post_beep(&mut log, &secret, &"s3cret".to_owned(), "hi".to_owned());
    assert_eq!(first, Status::Created);
    let second = post_beep(&mut log, &secret, &"wrong".to_owned(), "hi".to_owned());
    assert_eq!(second, Status::NotFound);
    let page = home_page(&log);
    assert_eq!(page.len(), 1);
    assert_eq!(page[0].text, "hi");
}
