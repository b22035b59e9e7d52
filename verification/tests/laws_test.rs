use agentrt_rs::json::{JsonMap, JsonValue};
use agentrt_rs::{http_status_to_code, http_status_to_error, MemoryLayer, SessionStatus, SkillStatus, TaskStatus};

#[test]
fn status_names_round_trip() {
    for t in [TaskStatus::Pending, TaskStatus::Running, TaskStatus::Completed, TaskStatus::Failed, TaskStatus::Cancelled] {
        assert_eq!(TaskStatus::from_str(t.as_str()), Some(t));
    }
    for l in [MemoryLayer::L1, MemoryLayer::L2, MemoryLayer::L3, MemoryLayer::L4] {
        assert_eq!(MemoryLayer::from_str(l.as_str()), Some(l));
    }
    assert_eq!(MemoryLayer::from_str("l2"), Some(MemoryLayer::L2));
    for s in [SessionStatus::Active, SessionStatus::Inactive, SessionStatus::Expired] {
        assert_eq!(SessionStatus::from_str(s.as_str()), Some(s));
    }
    for s in [SkillStatus::Active, SkillStatus::Inactive, SkillStatus::Deprecated] {
        assert_eq!(SkillStatus::from_str(s.as_str()), Some(s));
    }
    assert_eq!(TaskStatus::from_str("PENDING"), None);
}

#[test]
fn map_insert_then_lookup() {
    let mut m = JsonMap::new();
    m.insert("a".to_string(), JsonValue::from_i64(1));
    m.insert("b".to_string(), JsonValue::from_i64(2));
    m.insert("a".to_string(), JsonValue::from_i64(3));
    assert_eq!(m.get("a"), Some(&JsonValue::from_i64(3)));
    assert_eq!(m.get("b"), Some(&JsonValue::from_i64(2)));
    assert_eq!(m.len(), 2);
    assert_eq!(m.entries[0].0, "a");
}

#[test]
fn status_errors_keep_their_code() {
    for status in [400u16, 401, 403, 404, 408, 409, 422, 429, 500, 502, 503, 418, 200] {
        assert_eq!(http_status_to_error(status, "m").code(), http_status_to_code(status));
    }
    assert_ne!(http_status_to_error(504, "m").code(), http_status_to_code(504));
}
