use agentrt_rs::client::HttpMethod;
use agentrt_rs::json::{JsonMap, JsonNumber, JsonValue};
use agentrt_rs::modules::{memory, session, skill, task};
use agentrt_rs::{APIResponse, AgentOSError, ListOptions, MemoryLayer, PaginationOptions, SessionStatus, SkillStatus, TaskStatus, CODE_INVALID_PARAMETER, CODE_MISSING_PARAMETER, CODE_TASK_TIMEOUT};

fn response(data: JsonValue) -> APIResponse {
    APIResponse { success: true, data, message: None }
}

fn obj(pairs: Vec<(&str, JsonValue)>) -> JsonMap {
    let mut m = JsonMap::new();
    for (k, v) in pairs {
        m.insert(k.to_string(), v);
    }
    m
}

fn s(x: &str) -> JsonValue {
    JsonValue::String(x.to_string())
}

#[test]
fn task_requests() {
    let err = task::submit_request("").err().unwrap();
    assert_eq!(err.code(), CODE_MISSING_PARAMETER);
    assert_eq!(err.message(), "任务描述不能为空");
    let q = task::submit_request("do it").unwrap();
    assert_eq!(q.method, HttpMethod::Post);
    assert_eq!(q.path, "/api/v1/tasks");
    assert_eq!(q.body, Some(JsonValue::Object(obj(vec![("description", s("do it"))]))));

    let q = task::submit_with_options_request("d", 5, Some(obj(vec![("k", s("v"))]))).unwrap();
    assert_eq!(
        q.body,
        Some(JsonValue::Object(obj(vec![
            ("description", s("d")),
            ("priority", JsonValue::from_i64(5)),
            ("metadata", JsonValue::Object(obj(vec![("k", s("v"))]))),
        ])))
    );
    assert_eq!(task::get_request("t1").unwrap().path, "/api/v1/tasks/t1");
    assert_eq!(task::cancel_request("t1").unwrap().path, "/api/v1/tasks/t1/cancel");
    assert_eq!(task::delete_request("t1").unwrap().method, HttpMethod::Delete);
    assert!(task::get_request("").is_err());
    let opts = ListOptions { pagination: Some(PaginationOptions { page: 2, page_size: 5 }), sort: None, filter: None };
    assert_eq!(task::list_request(Some(&opts)).path, "/api/v1/tasks?page=2&page_size=5");
    assert_eq!(task::list_request(None).path, "/api/v1/tasks");
    assert_eq!(task::count_request().path, "/api/v1/tasks/count");
}

#[test]
fn task_reading() {
    let data = obj(vec![
        ("task_id", s("t9")),
        ("status", s("running")),
        ("priority", JsonValue::from_i64(4294967297)),
        ("output", s("")),
        ("error", s("bad")),
    ]);
    let t = task::parse_task_from_map(&data);
    assert_eq!(t.id, "t9");
    assert_eq!(t.status, TaskStatus::Running);
    assert_eq!(t.priority, 1);
    assert_eq!(t.output, None);
    assert_eq!(t.error, Some("bad".to_string()));
    let t = task::parse_task_from_map(&obj(vec![("status", s("weird"))]));
    assert_eq!(t.status, TaskStatus::Pending);

    let list = JsonValue::Object(obj(vec![(
        "tasks",
        JsonValue::Array(vec![JsonValue::Object(obj(vec![("task_id", s("a"))])), s("skip"), JsonValue::Object(obj(vec![("task_id", s("b"))]))]),
    )]));
    let tasks = task::parse_task_list(&response(list)).unwrap();
    assert_eq!(tasks.len(), 2);
    assert_eq!(tasks[1].id, "b");
    assert!(matches!(task::parse_task_list(&response(JsonValue::Null)), Err(AgentOSError::InvalidResponse(ref m)) if m == "任务列表响应格式异常"));
    assert_eq!(task::parse_count(&response(JsonValue::Object(obj(vec![("count", JsonValue::from_i64(12))])))).unwrap(), 12);

    let pending = task::parse_task_from_map(&obj(vec![]));
    let e = task::get_result_from(pending).err().unwrap();
    assert_eq!(e.code(), CODE_INVALID_PARAMETER);
    let done = task::parse_task_from_map(&obj(vec![("status", s("completed")), ("created_at", s("c"))]));
    let r = task::get_result_from(done).unwrap();
    assert_eq!(r.status, TaskStatus::Completed);
    assert_eq!(r.start_time, "c");
    assert_eq!(r.duration, std::time::Duration::from_secs(0));
    assert_eq!(task::wait_step(TaskStatus::Failed, 0, 0), task::WaitStep::Finish);
    assert_eq!(task::wait_step(TaskStatus::Running, 11, 10), task::WaitStep::TimedOut);
    assert_eq!(task::wait_step(TaskStatus::Running, 10, 10), task::WaitStep::Poll);
    let e = task::wait_timeout_error("t1");
    assert_eq!(e.code(), CODE_TASK_TIMEOUT);
    assert_eq!(e.message(), "任务 t1 超时");
}

#[test]
fn memory_requests_and_reading() {
    assert_eq!(memory::write_request("", MemoryLayer::L2, None).err().unwrap().message(), "记忆内容不能为空");
    let q = memory::write_request("c", MemoryLayer::L2, None).unwrap();
    assert_eq!(q.body, Some(JsonValue::Object(obj(vec![("content", s("c")), ("layer", s("L2"))]))));
    let q = memory::search_request("hi", None, 0).unwrap();
    assert_eq!(q.path, "/api/v1/memories/search?query=hi&top_k=10");
    let q = memory::search_request("hi", Some(MemoryLayer::L3), 4).unwrap();
    assert_eq!(q.path, "/api/v1/memories/search?query=hi&layer=L3&top_k=4");
    assert!(memory::search_request("", None, 3).is_err());
    assert_eq!(memory::effective_top_k(-1), 10);
    assert_eq!(memory::update_request("m1", "x").unwrap().method, HttpMethod::Put);
    assert_eq!(memory::delete_request("").err().unwrap().message(), "记忆ID不能为空");
    let opts = ListOptions { pagination: Some(PaginationOptions { page: 1, page_size: 2 }), sort: None, filter: None };
    assert_eq!(memory::list_by_layer_request(MemoryLayer::L1, Some(&opts)).path, "/api/v1/memories?layer=L1&page=1&page_size=2");
    assert_eq!(memory::clear_request().method, HttpMethod::Delete);
    assert_eq!(memory::evolve_request().path, "/api/v1/memories/evolve");
    assert_eq!(memory::stats_request().path, "/api/v1/memories/stats");

    let m = memory::parse_memory_from_map(&obj(vec![("memory_id", s("m")), ("layer", s("l4")), ("score", JsonValue::Number(JsonNumber::Float("0.5".to_string())))]));
    assert_eq!(m.id, "m");
    assert_eq!(m.layer, MemoryLayer::L4);
    assert_eq!(m.score, JsonNumber::Float("0.5".to_string()));
    let m = memory::parse_memory_from_map(&obj(vec![("layer", s("L9"))]));
    assert_eq!(m.layer, MemoryLayer::L1);
    let data = JsonValue::Object(obj(vec![("total", JsonValue::from_i64(1)), ("memories", JsonValue::Array(vec![JsonValue::Object(obj(vec![("content", s("x"))]))]))]));
    let r = memory::parse_memory_search_result(&response(data), "q", 3).unwrap();
    assert_eq!(r.total, 1);
    assert_eq!(r.top_k, 3);
    assert_eq!(r.memories[0].content, "x");
    let stats = memory::parse_stats(&response(JsonValue::Object(obj(vec![("a", JsonValue::from_i64(2)), ("b", s("no"))])))).unwrap();
    assert_eq!(stats, vec![("a".to_string(), 2)]);
}

#[test]
fn session_and_skill_requests_and_reading() {
    assert_eq!(session::create_request().path, "/api/v1/sessions");
    assert_eq!(session::create_with_user_request("u").body, Some(JsonValue::Object(obj(vec![("user_id", s("u"))]))));
    assert_eq!(session::get_request("").err().unwrap().message(), "会话ID不能为空");
    assert_eq!(session::set_context_request("s1", "k", s("v")).unwrap().path, "/api/v1/sessions/s1/context");
    assert_eq!(session::get_context_request("s1", "k").unwrap().path, "/api/v1/sessions/s1/context/k");
    assert_eq!(session::delete_context_request("s1", "k").unwrap().method, HttpMethod::Delete);
    assert_eq!(session::close_request("s1").unwrap().method, HttpMethod::Delete);
    let x = session::parse_session_from_map(&obj(vec![("session_id", s("s")), ("status", s("expired")), ("user_id", s(""))]));
    assert_eq!(x.status, SessionStatus::Expired);
    assert_eq!(x.user_id, None);
    let v = session::parse_context_value(&response(JsonValue::Object(obj(vec![("value", JsonValue::from_i64(3))])))).unwrap();
    assert_eq!(v, JsonValue::from_i64(3));
    assert!(matches!(session::parse_context_value(&response(JsonValue::Object(obj(vec![])))), Err(AgentOSError::InvalidResponse(ref m)) if m == "缺少 value 字段"));

    assert_eq!(skill::load_request("").err().unwrap().message(), "技能名称不能为空");
    let q = skill::execute_request("sk", None).unwrap();
    assert_eq!(q.path, "/api/v1/skills/sk/execute");
    assert_eq!(q.body, Some(JsonValue::Object(obj(vec![("parameters", JsonValue::Object(JsonMap::new()))]))));
    assert_eq!(skill::unload_request("sk").unwrap().method, HttpMethod::Delete);
    let k = skill::parse_skill_from_map(&obj(vec![("name", s("n")), ("status", s("deprecated"))]));
    assert_eq!(k.status, SkillStatus::Deprecated);
    let info = skill::parse_load_response(&response(JsonValue::Object(obj(vec![("version", s("2"))]))), "sk").unwrap();
    assert_eq!(info.name, "sk");
    assert_eq!(info.version, Some("2".to_string()));
    let r = skill::parse_execute_response(&response(JsonValue::Object(obj(vec![("success", JsonValue::Bool(true)), ("error", s(""))])))).unwrap();
    assert!(r.success);
    assert_eq!(r.output, None);
    assert_eq!(r.error, Some(String::new()));
}
