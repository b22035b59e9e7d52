use agentrt_rs::json::{JsonMap, JsonNumber, JsonValue};
use agentrt_rs::protocol::{
    build_payload_at, connection_status, detect_from_response, judge_protocol_failure, protocol_next_step, protocol_headers, protocol_resource_url,
    protocols_from, protocols_url, request_url, url_path, ProtocolConfig, ProtocolFailure, ProtocolStats,
    ProtocolType,
};
use agentrt_rs::client::AttemptStep;
use agentrt_rs::AgentOSError;

fn s(x: &str) -> JsonValue {
    JsonValue::String(x.to_string())
}

fn config(t: ProtocolType) -> ProtocolConfig {
    let mut c = ProtocolConfig::default_with_env(None, None, None);
    c.protocol_type = t;
    c
}

#[test]
fn detection_by_content() {
    let d = detect_from_response("application/json", r#"{"method":"tools/list"}"#);
    assert_eq!(d.detected_type, ProtocolType::Mcp);
    assert_eq!(d.confidence, 100);
    assert_eq!(d.protocol_name, "mcp");
    let d = detect_from_response("application/json", r#"{"model":"x","choices":[]}"#);
    assert_eq!((d.detected_type, d.confidence), (ProtocolType::OpenAi, 95));
    let d = detect_from_response("application/json", r#"{"jsonrpc":"2.0"}"#);
    assert_eq!((d.detected_type, d.confidence), (ProtocolType::JsonRpc, 100));
    let d = detect_from_response("application/json", "{}");
    assert_eq!((d.detected_type, d.confidence), (ProtocolType::JsonRpc, 70));
    let d = detect_from_response("text/event-stream", r#""task/delegate""#);
    assert_eq!((d.detected_type, d.confidence), (ProtocolType::JsonRpc, 50));
    assert!(d.is_streaming);
    let d = detect_from_response("application/json", r#"["agent/discover"]"#);
    assert_eq!(d.detected_type, ProtocolType::A2a);
}

#[test]
fn payloads_per_protocol() {
    let mut params = JsonMap::new();
    params.insert("model".to_string(), s("m1"));
    params.insert("max_tokens".to_string(), JsonValue::from_i64(10));
    let params = JsonValue::Object(params);
    let p = build_payload_at(&config(ProtocolType::OpenAi), "chat", &params, 0);
    assert_eq!(p.get("model").unwrap().as_str(), Some("m1"));
    assert_eq!(p.get("messages"), Some(&JsonValue::Array(vec![])));
    assert_eq!(p.get("temperature"), Some(&JsonValue::Number(JsonNumber::Float("0.7".to_string()))));
    assert_eq!(p.get("max_tokens").unwrap().as_i64(), Some(10));
    assert_eq!(p.get("stream"), Some(&JsonValue::Bool(false)));

    let p = build_payload_at(&config(ProtocolType::Mcp), "a.b.tools/call", &params, 0);
    assert_eq!(p.get("method").unwrap().as_str(), Some("tools/call"));
    assert_eq!(p.get("version").unwrap().as_str(), Some("1.0"));
    let p = build_payload_at(&config(ProtocolType::Mcp), "plain", &params, 0);
    assert_eq!(p.get("method").unwrap().as_str(), Some("plain"));
    let p = build_payload_at(&config(ProtocolType::A2a), "agent.list", &params, 0);
    assert_eq!(p.get("method").unwrap().as_str(), Some("agent/discover"));
    let p = build_payload_at(&config(ProtocolType::A2a), "other", &params, 0);
    assert_eq!(p.get("method").unwrap().as_str(), Some("other"));
    let p = build_payload_at(&config(ProtocolType::JsonRpc), "ping", &params, 42);
    assert_eq!(p.get("id").unwrap().as_str(), Some("req_42"));
    assert_eq!(p.get("jsonrpc").unwrap().as_str(), Some("2.0"));
}

#[test]
fn paths_headers_and_failures() {
    assert_eq!(url_path(ProtocolType::OpenAi), "/v1/chat/completions");
    assert_eq!(url_path(ProtocolType::A2a), "/api/v1/invoke");
    assert_eq!(url_path(ProtocolType::AutoDetect), "/rpc");
    let mut c = config(ProtocolType::Mcp);
    c.endpoint = "http://g".to_string();
    c.api_key = Some("k".to_string());
    c.extra_headers.insert("X-A".to_string(), "1".to_string());
    assert_eq!(request_url(&c), "http://g/api/v1/invoke");
    assert_eq!(protocols_url("http://g"), "http://g/api/v1/protocols");
    assert_eq!(protocol_resource_url("http://g", "mcp", "test"), "http://g/api/v1/protocols/mcp/test");
    let h = protocol_headers(&c);
    assert_eq!(h.len(), 4);
    assert_eq!(h[2], ("Authorization".to_string(), "Bearer k".to_string()));
    assert_eq!(h[3], ("X-A".to_string(), "1".to_string()));

    let (e, retry) = judge_protocol_failure(ProtocolFailure::Status { status: 502, body: "bad".to_string() });
    assert!(!retry);
    assert!(matches!(e, AgentOSError::Http(ref m) if m == "HTTP 502: bad"));
    let (e, retry) = judge_protocol_failure(ProtocolFailure::Transport { timeout: false, connect: true, detail: "d".to_string() });
    assert!(retry);
    assert!(matches!(e, AgentOSError::Timeout(ref m) if m == "d"));

    let mut stats = ProtocolStats::new();
    stats.record_success(ProtocolType::JsonRpc);
    stats.record_success(ProtocolType::Mcp);
    assert_eq!((stats.requests_sent, stats.transformations), (2, 1));
    assert_eq!(ProtocolType::AutoDetect.to_string(), "auto");
}

#[test]
fn listed_protocols() {
    let mut m = JsonMap::new();
    m.insert("protocols".to_string(), JsonValue::Array(vec![s("mcp"), JsonValue::from_i64(1), s("a2a")]));
    assert_eq!(protocols_from(&JsonValue::Object(m)), vec!["mcp".to_string(), "a2a".to_string()]);
    assert!(protocols_from(&JsonValue::Null).is_empty());
    let c = ProtocolConfig::default_with_env(Some("http://e".to_string()), None, None);
    assert_eq!(c.endpoint, "http://e");
    assert_eq!(ProtocolConfig::default_with_env(None, None, None).endpoint, "http://127.0.0.1:18789");
}

#[test]
fn protocol_retries_only_transport_failures() {
    let step = protocol_next_step(0, 3, ProtocolFailure::Status { status: 500, body: "x".to_string() });
    assert!(matches!(step, AttemptStep::Fail(AgentOSError::Http(ref m)) if m == "HTTP 500: x"));
    let step = protocol_next_step(2, 3, ProtocolFailure::Transport { timeout: true, connect: false, detail: "t".to_string() });
    assert!(matches!(step, AttemptStep::Retry));
    let step = protocol_next_step(3, 3, ProtocolFailure::Transport { timeout: true, connect: false, detail: "t".to_string() });
    assert!(matches!(step, AttemptStep::Fail(AgentOSError::Timeout(ref m)) if m == "t"));
    let step = protocol_next_step(0, 3, ProtocolFailure::Transport { timeout: false, connect: false, detail: "n".to_string() });
    assert!(matches!(step, AttemptStep::Fail(AgentOSError::Network(ref m)) if m == "n"));
}

#[test]
fn failed_requests_leave_the_counters() {
    let mut stats = ProtocolStats::new();
    stats.record_outcome(ProtocolType::Mcp, true);
    assert_eq!((stats.requests_sent, stats.transformations), (1, 1));
    stats.record_outcome(ProtocolType::Mcp, false);
    assert_eq!((stats.requests_sent, stats.transformations), (1, 1));
    stats.record_outcome(ProtocolType::JsonRpc, true);
    assert_eq!((stats.requests_sent, stats.transformations), (2, 1));
}

#[test]
fn configuration_from_the_environment() {
    let c = ProtocolConfig::default_with_env(None, Some("12".to_string()), Some("k".to_string()));
    assert_eq!(c.endpoint, "http://127.0.0.1:18789");
    assert_eq!(c.timeout, std::time::Duration::from_secs(12));
    assert_eq!(c.api_key.as_deref(), Some("k"));
}

#[test]
fn connection_status_by_http_status() {
    assert_eq!(connection_status(200), "ok");
    assert_eq!(connection_status(204), "ok");
    assert_eq!(connection_status(299), "ok");
    assert_eq!(connection_status(301), "error");
    assert_eq!(connection_status(503), "error");
    assert_eq!(connection_status(199), "error");
}
