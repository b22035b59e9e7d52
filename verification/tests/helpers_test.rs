use agentrt_rs::json::{JsonMap, JsonNumber, JsonValue};
use agentrt_rs::{build_url, generate_id, generate_memory_id, generate_task_id, get_bool, get_f64, get_i64, get_string, validate_endpoint, StringMap};

fn map_with(key: &str, value: JsonValue) -> JsonMap {
    let mut data = JsonMap::new();
    data.insert(key.to_string(), value);
    data
}

#[test]
fn test_get_string() {
    let data = map_with("name", JsonValue::String("test".to_string()));
    assert_eq!(get_string(&data, "name"), "test");
    assert_eq!(get_string(&data, "missing"), "");
}

#[test]
fn test_get_i64() {
    let data = map_with("count", JsonValue::from_i64(42));
    assert_eq!(get_i64(&data, "count"), 42);
    assert_eq!(get_i64(&data, "missing"), 0);
}

#[test]
fn test_get_f64() {
    let data = map_with("score", JsonValue::Number(JsonNumber::Float("3.14".to_string())));
    assert_eq!(get_f64(&data, "score"), JsonNumber::Float("3.14".to_string()));
    assert_eq!(get_f64(&data, "missing"), JsonNumber::PosInt(0));
}

#[test]
fn test_get_bool() {
    let data = map_with("active", JsonValue::Bool(true));
    assert_eq!(get_bool(&data, "active"), true);
    assert_eq!(get_bool(&data, "missing"), false);
}

#[test]
fn test_build_url() {
    let mut params = StringMap::new();
    params.insert("query".to_string(), "test".to_string());
    params.insert("limit".to_string(), "10".to_string());

    let url = build_url("/api/v1/search", params);
    assert!(url.contains("/api/v1/search?"));
    assert!(url.contains("query=test"));
    assert!(url.contains("limit=10"));
}

#[test]
fn helpers_test_generate_id() {
    let id1 = generate_id();
    let id2 = generate_id();
    assert_ne!(id1, id2);
    assert!(id1.len() > 0);
}

#[test]
fn helpers_test_generate_task_id() {
    let id = generate_task_id();
    assert!(id.starts_with("task-"));
}

#[test]
fn helpers_test_generate_memory_id() {
    let id = generate_memory_id();
    assert!(id.starts_with("mem-"));
}

#[test]
fn helpers_test_validate_endpoint() {
    assert!(validate_endpoint("http://localhost:18789"));
    assert!(validate_endpoint("https://api.example.com"));
    assert!(!validate_endpoint("invalid-endpoint"));
    assert!(!validate_endpoint("ftp://example.com"));
}

#[test]
fn build_url_encodes_in_order() {
    let mut params = StringMap::new();
    params.insert("q".to_string(), "a b&c".to_string());
    params.insert("page".to_string(), "2".to_string());
    assert_eq!(build_url("/x", params), "/x?q=a%20b%26c&page=2");
    assert_eq!(build_url("/x", StringMap::new()), "/x");
}

#[test]
fn generated_ids_are_prefixed_uuids() {
    let id = generate_id();
    assert_eq!(id.len(), 36);
    assert_eq!(id.as_bytes()[14], b'4');
    assert!(agentrt_rs::generate_session_id().starts_with("session-"));
}

#[test]
fn times_read_and_written_as_rfc3339() {
    let t = agentrt_rs::parse_time("2024-01-02T03:04:05Z").unwrap();
    assert_eq!(t, agentrt_rs::UtcTime { secs: 1704164645, nanos: 0 });
    assert_eq!(agentrt_rs::format_time(&t), "2024-01-02T03:04:05+00:00");
    let t = agentrt_rs::parse_time("2024-01-02T04:04:05.5+01:00").unwrap();
    assert_eq!(t, agentrt_rs::UtcTime { secs: 1704164645, nanos: 500000000 });
    assert!(agentrt_rs::parse_time("yesterday").is_err());
    let data = map_with("at", JsonValue::String("1970-01-01T00:00:10Z".to_string()));
    assert_eq!(agentrt_rs::parse_time_from_map(&data, "at").secs, 10);
    assert!(agentrt_rs::parse_time_from_map(&data, "missing").secs > 1704164645);
}
