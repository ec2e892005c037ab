use lms_metrics_proxy::record::RequestRecord;
use lms_metrics_proxy::relay::{finish_relay, relay_step, RelayState};

fn fresh() -> RequestRecord {
    RequestRecord::new(
        "/v1/chat/completions".to_string(),
        "llama".to_string(),
        "2024-01-01T00:00:00+00:00".to_string(),
        "hi".to_string(),
    )
}

const END: &str = "2024-01-01T00:00:03+00:00";

const FRAME_1: &[u8] = b"data: {\"id\":\"abc\",\"choices\":[{\"delta\":{\"content\":\"Hi\"}}]}\n\n";
const FRAME_2: &[u8] = b"data: {\"choices\":[{\"delta\":{\"content\":\" there\"}}],\"usage\":{\"prompt_tokens\":3,\"completion_tokens\":2}}\n\n";
const FRAME_DONE: &[u8] = b"data: [DONE]\n\n";

#[test]
fn streamed_exchange_accumulates_and_finalizes() {
    let mut st = RelayState::new();
    let mut delivered: Vec<Vec<u8>> = Vec::new();
    for frame in [FRAME_1, FRAME_2, FRAME_DONE] {
        // the client took the frame; the producer may read on
        delivered.push(frame.to_vec());
        assert!(relay_step(&mut st, frame, true));
    }
    assert!(!st.aborted);
    assert_eq!(delivered, vec![FRAME_1.to_vec(), FRAME_2.to_vec(), FRAME_DONE.to_vec()]);

    let mut r = fresh();
    assert!(finish_relay(&mut r, st, 200, END.to_string()));
    assert_eq!(r.output, "Hi there");
    assert_eq!(r.request_id.as_deref(), Some("abc"));
    assert_eq!(r.input_tokens, 3);
    assert_eq!(r.output_tokens, 2);
    assert_eq!(r.total_tokens, 5);
    assert!(r.was_streamed);
    assert!(!r.is_error);
    assert_eq!(r.http_status, 200);
    assert_eq!(r.duration_ms, 3000);
}

#[test]
fn disconnect_stops_the_relay_and_keeps_the_prefix() {
    let mut st = RelayState::new();
    assert!(relay_step(&mut st, FRAME_1, true));
    // the client dropped the connection: the second frame was not delivered
    assert!(!relay_step(&mut st, FRAME_2, false));
    assert!(st.aborted);
    assert_eq!(st.output, "Hi");
    assert!(st.usage.is_none());

    let mut r = fresh();
    assert!(finish_relay(&mut r, st, 200, END.to_string()));
    assert_eq!(r.output, "Hi");
    assert_eq!(r.request_id.as_deref(), Some("abc"));
    assert_eq!(r.input_tokens, 0);
    assert_eq!(r.output_tokens, 0);
    assert!(r.was_streamed);
}

#[test]
fn crlf_line_endings_are_accepted() {
    let mut st = RelayState::new();
    let frame = b"data: {\"choices\":[{\"delta\":{\"content\":\"ok\"}}]}\r\n\r\n";
    assert!(relay_step(&mut st, frame, true));
    assert_eq!(st.output, "ok");
}

#[test]
fn partial_event_split_across_chunks_is_ignored() {
    let mut st = RelayState::new();
    assert!(relay_step(&mut st, b"data: {\"choices\":[{\"delta\":{\"cont", true));
    assert!(relay_step(&mut st, b"ent\":\"X\"}}]}\n", true));
    assert_eq!(st.output, "");
    assert!(!st.aborted);
}

#[test]
fn done_sentinel_and_other_lines_contribute_nothing() {
    let mut st = RelayState::new();
    assert!(relay_step(&mut st, b"event: ping\n: comment\ndata: [DONE]\n", true));
    assert_eq!(st.output, "");
    assert_eq!(st.request_id, None);
}

#[test]
fn last_usage_and_id_win() {
    let mut st = RelayState::new();
    let a = b"data: {\"id\":\"one\",\"usage\":{\"prompt_tokens\":1,\"completion_tokens\":1}}\n";
    let b = b"data: {\"id\":\"two\",\"usage\":{\"prompt_tokens\":9,\"completion_tokens\":4}}\n";
    assert!(relay_step(&mut st, a, true));
    assert!(relay_step(&mut st, b, true));
    let mut r = fresh();
    assert!(finish_relay(&mut r, st, 200, END.to_string()));
    assert_eq!(r.request_id.as_deref(), Some("two"));
    assert_eq!(r.input_tokens, 9);
    assert_eq!(r.output_tokens, 4);
    assert_eq!(r.total_tokens, 13);
}
