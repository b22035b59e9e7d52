use agentrt_rs::run_stream::gen;
use agentrt_rs::{decode_sse_frame, RunStreamEnvelope, RunStreamKind, SseDecoder};

#[test]
fn test_gen_version() {
    assert_eq!(gen::AIRY_RS_VERSION, 1);
}

#[test]
fn test_gen_envelope_keys() {
    assert_eq!(gen::AIRY_RS_K_V, "v");
    assert_eq!(gen::AIRY_RS_K_TYPE, "type");
    assert_eq!(gen::AIRY_RS_K_ID, "id");
    assert_eq!(gen::AIRY_RS_K_RUN_ID, "run_id");
    assert_eq!(gen::AIRY_RS_K_SESSION, "session_id");
    assert_eq!(gen::AIRY_RS_K_TS, "ts");
    assert_eq!(gen::AIRY_RS_K_EPOCH, "epoch");
    assert_eq!(gen::AIRY_RS_K_DATA, "data");
}

#[test]
fn test_gen_event_types() {
    assert_eq!(gen::AIRY_RS_TYPE_RUN_START, "run_start");
    assert_eq!(gen::AIRY_RS_TYPE_RUN_END, "run_end");
    assert_eq!(gen::AIRY_RS_TYPE_ERROR, "error");
    assert_eq!(gen::AIRY_RS_TYPE_PLAN, "plan");
    assert_eq!(gen::AIRY_RS_TYPE_TOOL_START, "tool_start");
    assert_eq!(gen::AIRY_RS_TYPE_TOOL_END, "tool_end");
    assert_eq!(gen::AIRY_RS_TYPE_TOOL_DELTA, "tool_delta");
    assert_eq!(gen::AIRY_RS_TYPE_TOKEN_DELTA, "token_delta");
    assert_eq!(gen::AIRY_RS_TYPE_MESSAGE, "message");
}

#[test]
fn test_decode_run_start() {
    let line = r#"data: {"v":1,"type":"run_start","id":0,"session_id":"sess_x","ts":1,"epoch":0,"data":{"prompt":"hi"}}"#;
    let ev = decode_sse_frame(line).expect("decode run_start");
    assert_eq!(ev.protocol_v, 1);
    assert_eq!(ev.event_type, gen::AIRY_RS_TYPE_RUN_START);
    assert_eq!(ev.session_id.as_deref(), Some("sess_x"));
    assert_eq!(ev.data.get(gen::AIRY_RS_K_PROMPT).unwrap().as_str(), Some("hi"));
    assert_eq!(ev.kind(), RunStreamKind::Control);
}

#[test]
fn test_decode_with_trailing_crlf() {
    let line = "data: {\"v\":1,\"type\":\"run_end\",\"id\":1,\"ts\":2,\"epoch\":0,\"data\":{\"status\":\"completed\"}}\r\n";
    let ev = decode_sse_frame(line).expect("decode run_end");
    assert_eq!(ev.event_type, gen::AIRY_RS_TYPE_RUN_END);
    assert_eq!(ev.kind(), RunStreamKind::Control);
    assert_eq!(ev.data.get(gen::AIRY_RS_K_STATUS).unwrap().as_str(), Some("completed"));
}

#[test]
fn test_decode_plan_and_execution() {
    let line = r#"data: {"v":1,"type":"plan","id":2,"ts":3,"epoch":0,"data":{"plan":[],"steps":[]}}"#;
    assert_eq!(decode_sse_frame(line).unwrap().kind(), RunStreamKind::Cognition);

    let line = r#"data: {"v":1,"type":"tool_start","id":3,"ts":4,"epoch":0,"data":{"tool":"web_search","tool_id":"t1"}}"#;
    assert_eq!(decode_sse_frame(line).unwrap().kind(), RunStreamKind::Execution);

    let line = r#"data: {"v":1,"type":"message","id":5,"ts":6,"epoch":0,"data":{"role":"assistant","content":"ok"}}"#;
    assert_eq!(decode_sse_frame(line).unwrap().kind(), RunStreamKind::Outcome);
}

#[test]
fn test_decode_unknown_type_tolerated() {
    let line = r#"data: {"v":1,"type":"stream_event","id":9,"ts":7,"epoch":0,"data":{"mime":"audio/wav"}}"#;
    let ev = decode_sse_frame(line).expect("unknown type tolerated");
    assert_eq!(ev.event_type, "stream_event");
    assert_eq!(ev.kind(), RunStreamKind::Unknown);
}

#[test]
fn test_decode_non_data_lines() {
    assert!(decode_sse_frame("").is_none());
    assert!(decode_sse_frame(": keep-alive").is_none());
    assert!(decode_sse_frame("event: foo").is_none());
    assert!(decode_sse_frame("data: not-json").is_none());
}

#[test]
fn test_decode_missing_core_fields() {
    assert!(decode_sse_frame(r#"data: {"id":1}"#).is_none());
    assert!(decode_sse_frame(r#"data: {"v":1}"#).is_none());
}

#[test]
fn test_decode_missing_optional_fields_defaulted() {
    let line = r#"data: {"v":1,"type":"run_start","data":{}}"#;
    let ev = decode_sse_frame(line).expect("optional fields defaulted");
    assert_eq!(ev.id, 0);
    assert_eq!(ev.ts, 0);
    assert_eq!(ev.epoch, 0);
    assert_eq!(ev.run_id, None);
}

#[test]
fn decode_public_api_run_start() {
    let line = r#"data: {"v":1,"type":"run_start","id":0,"session_id":"sess_test","ts":10,"epoch":0,"data":{"prompt":"hello","agent":"default"}}"#;
    let ev: RunStreamEnvelope = decode_sse_frame(line).expect("decode run_start via public API");
    assert_eq!(ev.protocol_v, 1);
    assert_eq!(ev.event_type, "run_start");
    assert_eq!(ev.kind(), RunStreamKind::Control);
    assert_eq!(ev.session_id.as_deref(), Some("sess_test"));
    assert_eq!(ev.data.get("prompt").unwrap().as_str(), Some("hello"));
}

#[test]
fn decode_public_api_ignore_keepalive() {
    assert!(decode_sse_frame(": keep-alive").is_none());
    assert!(decode_sse_frame("").is_none());
}

#[test]
fn decode_public_api_unknown_type() {
    let line = r#"data: {"v":1,"type":"future_type_x","id":1,"ts":1,"epoch":0,"data":{"a":1}}"#;
    let ev = decode_sse_frame(line).expect("future type decoded");
    assert_eq!(ev.kind(), RunStreamKind::Unknown);
}

#[test]
fn decode_public_api_multi_events_sequence() {
    let frames = [
        r#"data: {"v":1,"type":"run_start","id":0,"session_id":"s","ts":1,"epoch":0,"data":{}}"#,
        r#"data: {"v":1,"type":"plan","id":1,"ts":2,"epoch":0,"data":{"steps":[]}}"#,
        r#"data: {"v":1,"type":"token_delta","id":2,"ts":3,"epoch":0,"data":{"delta":"hi"}}"#,
        r#"data: {"v":1,"type":"run_end","id":3,"ts":4,"epoch":0,"data":{"status":"completed"}}"#,
    ];
    let kinds: Vec<RunStreamKind> = frames.iter().filter_map(|f| decode_sse_frame(f)).map(|ev| ev.kind()).collect();
    assert_eq!(
        kinds,
        vec![RunStreamKind::Control, RunStreamKind::Cognition, RunStreamKind::Outcome, RunStreamKind::Control,]
    );
}

#[test]
fn decoder_joins_lines_split_across_chunks() {
    let mut dec = SseDecoder::new();
    let first = dec.feed(b"data: {\"v\":1,\"type\":\"pl");
    assert!(first.is_empty());
    let second = dec.feed(b"an\",\"data\":{}}\n: keep-alive\ndata: {\"v\":1,\"type\":\"run_end\"}");
    assert_eq!(second.len(), 1);
    assert_eq!(second[0].kind(), RunStreamKind::Cognition);
    let last = dec.finish().expect("trailing frame");
    assert_eq!(last.event_type, "run_end");
}

fn event_types(chunks: &[&[u8]]) -> Vec<String> {
    let mut dec = SseDecoder::new();
    let mut out = Vec::new();
    for c in chunks {
        for e in dec.feed(c) {
            out.push(e.event_type);
        }
    }
    if let Some(e) = dec.finish() {
        out.push(e.event_type);
    }
    out
}

#[test]
fn events_do_not_depend_on_chunking() {
    let body: &[u8] = b"data: {\"v\":1,\"type\":\"run_start\"}\n: ping\ndata: {\"v\":1,\"type\":\"plan\"}\ndata: {\"v\":1,\"type\":\"run_end\"}";
    let whole = event_types(&[body]);
    assert_eq!(whole, vec!["run_start".to_string(), "plan".to_string(), "run_end".to_string()]);
    let bytes: Vec<&[u8]> = body.chunks(1).collect();
    assert_eq!(event_types(&bytes), whole);
    let (a, rest) = body.split_at(10);
    let (b, c) = rest.split_at(37);
    assert_eq!(event_types(&[a, b, c]), whole);
}
