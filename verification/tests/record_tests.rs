use lms_metrics_proxy::record::RequestRecord;

fn fresh(start: &str) -> RequestRecord {
    RequestRecord::new(
        "/v1/chat/completions".to_string(),
        "llama".to_string(),
        start.to_string(),
        "hi".to_string(),
    )
}

#[test]
fn new_record_is_open_and_zeroed() {
    let r = fresh("2024-01-01T00:00:00+00:00");
    assert_eq!(r.end_time, "");
    assert_eq!(r.duration_ms, 0);
    assert_eq!(r.input_tokens, 0);
    assert_eq!(r.output_tokens, 0);
    assert_eq!(r.total_tokens, 0);
    assert_eq!(r.output, "");
    assert!(r.request_id.is_none());
    assert!(!r.is_error);
    assert!(r.error_message.is_none());
    assert_eq!(r.http_status, 200);
    assert!(!r.was_streamed);
}

#[test]
fn complete_sums_tokens_and_measures_duration() {
    let mut r = fresh("2024-01-01T00:00:00+00:00");
    r.complete(
        "2024-01-01T00:00:01.500+00:00".to_string(),
        "out".to_string(),
        5,
        7,
        200,
        false,
    );
    assert_eq!(r.total_tokens, 12);
    assert_eq!(r.input_tokens, 5);
    assert_eq!(r.output_tokens, 7);
    assert_eq!(r.duration_ms, 1500);
    assert_eq!(r.output, "out");
    assert!(!r.was_streamed);
    assert!(!r.is_error);
}

#[test]
fn clock_skew_floors_duration_at_zero() {
    let mut r = fresh("2024-01-01T00:00:05+00:00");
    r.complete("2024-01-01T00:00:03+00:00".to_string(), String::new(), 1, 2, 200, false);
    assert_eq!(r.duration_ms, 0);
    assert_eq!(r.total_tokens, 3);
}

#[test]
fn unparseable_timestamp_keeps_previous_duration() {
    let mut r = fresh("not a timestamp");
    r.complete("2024-01-01T00:00:03+00:00".to_string(), String::new(), 0, 0, 200, true);
    assert_eq!(r.duration_ms, 0);
    assert!(r.was_streamed);
}

#[test]
fn set_error_records_message_and_status() {
    let mut r = fresh("2024-01-01T00:00:00+00:00");
    r.set_error(
        "2024-01-01T00:00:00.250+00:00".to_string(),
        "connection refused".to_string(),
        502,
    );
    assert!(r.is_error);
    assert_eq!(r.error_message.as_deref(), Some("connection refused"));
    assert_eq!(r.http_status, 502);
    assert_eq!(r.duration_ms, 250);
    assert_eq!(r.total_tokens, 0);
}
