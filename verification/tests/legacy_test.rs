use agentrt_rs::json::{JsonMap, JsonValue};
use agentrt_rs::memory::Memory;
use agentrt_rs::modules::task::WaitStep;
use agentrt_rs::task::{poll_step, read_result, read_status, read_success, timed_out_error, TaskStatus};
use agentrt_rs::AgentOSError;

fn obj(pairs: Vec<(&str, JsonValue)>) -> JsonValue {
    let mut m = JsonMap::new();
    for (k, v) in pairs {
        m.insert(k.to_string(), v);
    }
    JsonValue::Object(m)
}

#[test]
fn legacy_task_reading() {
    assert_eq!(read_status(&obj(vec![("status", JsonValue::String("failed".to_string()))])).unwrap(), TaskStatus::Failed);
    assert!(matches!(read_status(&obj(vec![])), Err(AgentOSError::InvalidResponse(ref m)) if m == "Missing status"));
    assert!(matches!(read_status(&obj(vec![("status", JsonValue::String("odd".to_string()))])), Err(AgentOSError::InvalidResponse(ref m)) if m == "Unknown status: odd"));
    let r = read_result("t1", TaskStatus::Completed, &obj(vec![("output", JsonValue::String("o".to_string()))]));
    assert_eq!(r.status, "completed");
    assert_eq!(r.output, Some("o".to_string()));
    assert_eq!(r.error, None);
    assert_eq!(read_success(&obj(vec![("success", JsonValue::Bool(true))])).unwrap(), true);
    assert!(read_success(&JsonValue::Null).is_err());
    assert!(TaskStatus::Cancelled.is_terminal());
    assert_eq!(TaskStatus::from_str("running"), Some(TaskStatus::Running));
    assert_eq!(TaskStatus::Pending.to_string(), "pending");
}

#[test]
fn legacy_memory_reading() {
    let mut m = JsonMap::new();
    m.insert("memory_id".to_string(), JsonValue::String("m".to_string()));
    m.insert("content".to_string(), JsonValue::String("c".to_string()));
    assert!(matches!(Memory::from_json(&m), Err(AgentOSError::InvalidResponse(ref e)) if e == "Missing created_at"));
    m.insert("created_at".to_string(), JsonValue::String("t".to_string()));
    let x = Memory::from_json(&m).unwrap();
    assert_eq!(x.id, "m");
    assert_eq!(x.metadata.len(), 0);
    let y = Memory::new("a".to_string(), "b".to_string(), "c".to_string(), JsonMap::new());
    assert_eq!(y.content, "b");
    let s = agentrt_rs::skill::read_skill_info("sk", &obj(vec![("description", JsonValue::String("d".to_string()))]));
    assert_eq!(s.description, "d");
    assert_eq!(s.version, "");
    assert!(agentrt_rs::skill::read_skill_result(&obj(vec![])).is_err());
    assert!(agentrt_rs::session::read_context_value(&obj(vec![])).is_err());
}


#[test]
fn legacy_wait_times_out_only_with_a_limit() {
    assert_eq!(poll_step(TaskStatus::Completed, 10, Some(5)), WaitStep::Finish);
    assert_eq!(poll_step(TaskStatus::Running, 10, Some(5)), WaitStep::TimedOut);
    assert_eq!(poll_step(TaskStatus::Running, 5, Some(5)), WaitStep::Poll);
    assert_eq!(poll_step(TaskStatus::Pending, u128::MAX, None), WaitStep::Poll);
    assert!(matches!(timed_out_error(), AgentOSError::Timeout(ref m) if m == "Task timed out"));
}
