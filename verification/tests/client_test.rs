use agentrt_rs::client::{
    format_request_id, next_step, AttemptStep, generate_request_id, judge_failure, parse_health, parse_metrics,
    request_headers, request_url, resolve_options, should_retry, AttemptFailure, ClientBuilder, HttpMethod,
};
use agentrt_rs::json::{JsonMap, JsonNumber, JsonValue};
use agentrt_rs::{with_header, with_query_param, with_request_timeout, APIResponse, AgentOSError, CODE_NOT_FOUND, CODE_RATE_LIMITED};
use std::time::Duration;

fn response(data: JsonValue) -> APIResponse {
    APIResponse { success: true, data, message: None }
}

#[test]
fn retry_only_server_errors_and_rate_limits() {
    assert!(should_retry(500));
    assert!(should_retry(503));
    assert!(should_retry(599));
    assert!(should_retry(429));
    assert!(!should_retry(404));
    assert!(!should_retry(400));
    assert!(!should_retry(600));
}

#[test]
fn judge_failure_by_kind() {
    let v = judge_failure(AttemptFailure::Status { status: 404, body: "no".to_string() });
    assert!(!v.retry);
    assert_eq!(v.error.code(), CODE_NOT_FOUND);
    assert_eq!(v.error.message(), "no");
    let v = judge_failure(AttemptFailure::Status { status: 429, body: "slow".to_string() });
    assert!(v.retry);
    assert_eq!(v.error.code(), CODE_RATE_LIMITED);
    let v = judge_failure(AttemptFailure::Transport { timeout: true, connect: false, detail: "t".to_string() });
    assert!(v.retry);
    assert!(matches!(v.error, AgentOSError::Timeout(ref m) if m == "请求超时: t"));
    let v = judge_failure(AttemptFailure::Transport { timeout: false, connect: true, detail: "c".to_string() });
    assert!(v.retry);
    assert!(matches!(v.error, AgentOSError::ConnectionRefused(ref m) if m == "连接被拒绝: c"));
    let v = judge_failure(AttemptFailure::Transport { timeout: false, connect: false, detail: "x".to_string() });
    assert!(!v.retry);
    assert!(matches!(v.error, AgentOSError::Network(ref m) if m == "网络错误: x"));
}

#[test]
fn options_url_and_headers() {
    let changes = vec![
        with_query_param("a".to_string(), "1".to_string()),
        with_header("X-K".to_string(), "v".to_string()),
        with_query_param("b".to_string(), "x y".to_string()),
        with_request_timeout(Duration::from_secs(5)),
        with_query_param("a".to_string(), "2".to_string()),
    ];
    let opts = resolve_options(&changes);
    assert_eq!(opts.timeout, Some(Duration::from_secs(5)));
    assert_eq!(request_url("http://h", "/p", &opts), "http://h/p?a=2&b=x y");
    let plain = resolve_options(&Vec::new());
    assert_eq!(request_url("http://h", "/p", &plain), "http://h/p");

    let config = ClientBuilder::new("http://h").api_key("k").build().unwrap();
    let headers = request_headers(&config, "req-1", &opts);
    let expected: Vec<(String, String)> = vec![
        ("Content-Type".to_string(), "application/json".to_string()),
        ("User-Agent".to_string(), "AgentRT-Rust-tools/0.1.0".to_string()),
        ("X-Request-ID".to_string(), "req-1".to_string()),
        ("Authorization".to_string(), "Bearer k".to_string()),
        ("X-K".to_string(), "v".to_string()),
    ];
    assert_eq!(headers, expected);
    assert_eq!(HttpMethod::Delete.as_str(), "DELETE");
}

#[test]
fn request_ids_have_their_shape() {
    assert_eq!(format_request_id(1234, 56), "req-1234-000056");
    assert_eq!(format_request_id(0, 999998), "req-0-999998");
    let id = generate_request_id();
    assert!(id.starts_with("req-"));
    assert_eq!(id.rsplit('-').next().unwrap().len(), 6);
}

#[test]
fn health_and_metrics_reading() {
    let mut checks = JsonMap::new();
    checks.insert("db".to_string(), JsonValue::String("ok".to_string()));
    checks.insert("cache".to_string(), JsonValue::Bool(true));
    let mut data = JsonMap::new();
    data.insert("status".to_string(), JsonValue::String("healthy".to_string()));
    data.insert("uptime".to_string(), JsonValue::from_i64(7));
    data.insert("checks".to_string(), JsonValue::Object(checks));
    let h = parse_health(&response(JsonValue::Object(data))).unwrap();
    assert_eq!(h.status, "healthy");
    assert_eq!(h.version, "unknown");
    assert_eq!(h.uptime, 7);
    assert_eq!(h.checks.get("db").map(|s| s.as_str()), Some("ok"));
    assert_eq!(h.checks.get("cache").map(|s| s.as_str()), Some(""));
    assert!(parse_health(&response(JsonValue::Null)).is_err());

    let mut m = JsonMap::new();
    m.insert("tasks_total".to_string(), JsonValue::from_i64(3));
    m.insert("cpu_usage".to_string(), JsonValue::Number(JsonNumber::Float("0.5".to_string())));
    let x = parse_metrics(&response(JsonValue::Object(m))).unwrap();
    assert_eq!(x.tasks_total, 3);
    assert_eq!(x.tasks_failed, 0);
    assert_eq!(x.cpu_usage, JsonNumber::Float("0.5".to_string()));
    assert_eq!(x.memory_usage, JsonNumber::PosInt(0));
    assert!(matches!(parse_metrics(&response(JsonValue::Bool(true))), Err(AgentOSError::InvalidResponse(_))));
}

#[test]
fn builder_setters_change_one_field() {
    let b = ClientBuilder::new("http://a")
        .timeout(Duration::from_secs(2))
        .retry_delay(Duration::from_millis(10))
        .user_agent("ua")
        .max_connections(3)
        .idle_conn_timeout(Duration::from_secs(4));
    assert_eq!(b.timeout, Duration::from_secs(2));
    assert_eq!(b.retry_delay, Duration::from_millis(10));
    assert_eq!(b.user_agent, "ua");
    assert_eq!(b.max_connections, 3);
    assert_eq!(b.idle_conn_timeout, Duration::from_secs(4));
    assert_eq!(b.max_retries, 3);
    assert_eq!(b.endpoint, "http://a");
}

#[test]
fn retries_stop_after_max_retries() {
    // Three retries: attempts 0, 1 and 2 are retried, attempt 3 is the last.
    for attempt in 0..3 {
        let step = next_step(attempt, 3, AttemptFailure::Status { status: 503, body: "busy".to_string() });
        assert!(matches!(step, AttemptStep::Retry));
    }
    let step = next_step(3, 3, AttemptFailure::Status { status: 503, body: "busy".to_string() });
    assert!(matches!(step, AttemptStep::Fail(ref e) if e.message() == "busy"));
    let step = next_step(0, 0, AttemptFailure::Transport { timeout: true, connect: false, detail: "t".to_string() });
    assert!(matches!(step, AttemptStep::Fail(AgentOSError::Timeout(ref m)) if m == "请求超时: t"));
    let step = next_step(0, 5, AttemptFailure::Status { status: 404, body: "no".to_string() });
    assert!(matches!(step, AttemptStep::Fail(ref e) if e.code() == CODE_NOT_FOUND));
}
