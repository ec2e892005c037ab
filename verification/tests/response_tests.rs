use lms_metrics_proxy::record::RequestRecord;
use lms_metrics_proxy::response::{
    extract_output, finalize_buffered, parse_upstream_response, process_buffered, Choice,
    UpstreamResponse, Usage,
};

fn fresh() -> RequestRecord {
    RequestRecord::new(
        "/v1/chat/completions".to_string(),
        "llama".to_string(),
        "2024-01-01T00:00:00+00:00".to_string(),
        "hi".to_string(),
    )
}

const END: &str = "2024-01-01T00:00:02+00:00";

#[test]
fn buffered_success_with_usage_completes_record() {
    let mut r = fresh();
    let body = "{\"id\":\"abc\",\"choices\":[{\"message\":{\"content\":\"Hello!\"}}],\
\"usage\":{\"prompt_tokens\":5,\"completion_tokens\":7}}"
        .to_string();
    let ok = process_buffered(&mut r, 200, &body, END.to_string());
    assert!(ok);
    assert_eq!(r.total_tokens, 12);
    assert_eq!(r.input_tokens, 5);
    assert_eq!(r.output_tokens, 7);
    assert!(!r.is_error);
    assert!(!r.was_streamed);
    assert_eq!(r.output, "Hello!");
    assert_eq!(r.request_id.as_deref(), Some("abc"));
    assert_eq!(r.http_status, 200);
    assert_eq!(r.duration_ms, 2000);
}

#[test]
fn malformed_body_marks_parse_failure_only() {
    let mut r = fresh();
    let body = "definitely not json".to_string();
    let ok = process_buffered(&mut r, 201, &body, END.to_string());
    assert!(ok);
    assert!(r.is_error);
    assert_eq!(r.error_message.as_deref(), Some("Failed to parse response"));
    assert_eq!(r.http_status, 201);
    assert_eq!(r.total_tokens, 0);
}

#[test]
fn missing_choices_counts_as_parse_failure() {
    let mut r = fresh();
    let body = "{\"usage\":{\"prompt_tokens\":5}}".to_string();
    let ok = process_buffered(&mut r, 200, &body, END.to_string());
    assert!(ok);
    assert!(r.is_error);
    assert_eq!(r.error_message.as_deref(), Some("Failed to parse response"));
}

#[test]
fn upstream_failure_stores_raw_body_as_message() {
    let mut r = fresh();
    let body = "{\"error\":\"boom\"}".to_string();
    let ok = process_buffered(&mut r, 500, &body, END.to_string());
    assert!(ok);
    assert!(r.is_error);
    assert_eq!(r.error_message.as_deref(), Some("{\"error\":\"boom\"}"));
    assert_eq!(r.http_status, 500);
}

#[test]
fn missing_usage_defaults_token_counts_to_zero() {
    let mut r = fresh();
    let body = "{\"choices\":[{\"text\":\"plain\"}]}".to_string();
    let ok = process_buffered(&mut r, 200, &body, END.to_string());
    assert!(ok);
    assert!(!r.is_error);
    assert_eq!(r.output, "plain");
    assert_eq!(r.input_tokens, 0);
    assert_eq!(r.output_tokens, 0);
    assert_eq!(r.total_tokens, 0);
}

fn choice(message: Option<&str>, text: Option<&str>, delta: Option<&str>) -> Choice {
    Choice {
        message_content: message.map(|s| s.to_string()),
        text: text.map(|s| s.to_string()),
        delta_content: delta.map(|s| s.to_string()),
        finish_reason: None,
    }
}

fn response_with(choices: Vec<Choice>) -> UpstreamResponse {
    UpstreamResponse { id: None, model: None, choices, usage: None }
}

#[test]
fn extract_output_prefers_message_content() {
    let r = response_with(vec![choice(Some("from message"), Some("from text"), None)]);
    assert_eq!(extract_output(&r), "from message");
}

#[test]
fn extract_output_falls_back_to_text() {
    let r = response_with(vec![choice(None, Some("from text"), None)]);
    assert_eq!(extract_output(&r), "from text");
}

#[test]
fn extract_output_ignores_delta_and_later_choices() {
    let r = response_with(vec![choice(None, None, Some("delta")), choice(Some("second"), None, None)]);
    assert_eq!(extract_output(&r), "");
}

#[test]
fn extract_output_empty_when_no_choices() {
    let r = response_with(Vec::new());
    assert_eq!(extract_output(&r), "");
}

#[test]
fn parse_reads_head_and_choices() {
    let body = "{\"id\":\"x1\",\"model\":\"m7\",\"choices\":[{\"message\":{\"content\":\"A\"},\
\"finish_reason\":\"stop\"}],\"usage\":{\"prompt_tokens\":1,\"completion_tokens\":2,\"total_tokens\":3}}";
    let parsed = parse_upstream_response(body).expect("parses");
    assert_eq!(parsed.id.as_deref(), Some("x1"));
    assert_eq!(parsed.model.as_deref(), Some("m7"));
    assert_eq!(parsed.choices.len(), 1);
    assert_eq!(parsed.choices[0].message_content.as_deref(), Some("A"));
    assert_eq!(parsed.choices[0].finish_reason.as_deref(), Some("stop"));
    let usage: Usage = parsed.usage.expect("usage present");
    assert_eq!(usage.prompt_tokens, Some(1));
    assert_eq!(usage.completion_tokens, Some(2));
    assert_eq!(usage.total_tokens, Some(3));
}

#[test]
fn finalize_buffered_uses_the_parsed_reply() {
    let mut r = fresh();
    let parsed = UpstreamResponse {
        id: Some("req-9".to_string()),
        model: None,
        choices: vec![choice(Some("answer"), None, None)],
        usage: Some(Usage {
            prompt_tokens: Some(2),
            completion_tokens: None,
            total_tokens: None,
        }),
    };
    finalize_buffered(&mut r, 200, &"raw".to_string(), Some(parsed), END.to_string());
    assert_eq!(r.output, "answer");
    assert_eq!(r.input_tokens, 2);
    assert_eq!(r.output_tokens, 0);
    assert_eq!(r.total_tokens, 2);
    assert_eq!(r.request_id.as_deref(), Some("req-9"));
    assert!(!r.is_error);
}

#[test]
fn finalize_buffered_without_id_keeps_none() {
    let mut r = fresh();
    let parsed = UpstreamResponse { id: None, model: None, choices: Vec::new(), usage: None };
    finalize_buffered(&mut r, 204, &String::new(), Some(parsed), END.to_string());
    assert!(r.request_id.is_none());
    assert_eq!(r.output, "");
    assert_eq!(r.total_tokens, 0);
    assert!(!r.is_error);
}
