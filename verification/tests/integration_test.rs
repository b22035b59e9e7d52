use agentrt_rs::{
    generate_id, generate_memory_id, generate_session_id, generate_task_id, http_status_to_code,
    validate_endpoint, AgentOSError, MemoryLayer, SessionStatus, SkillStatus, TaskStatus, AUTHOR,
    CODE_AGENT_DISPATCH_FAILED, CODE_ALREADY_EXISTS, CODE_BUSY, CODE_COGNITION_FAILED, CODE_CONFLICT,
    CODE_CONNECTION_REFUSED, CODE_CORRUPTED_DATA, CODE_DAG_BUILD_FAILED, CODE_FORBIDDEN, CODE_INTENT_PARSE_FAILED,
    CODE_INTERNAL, CODE_INVALID_CONFIG, CODE_INVALID_ENDPOINT, CODE_INVALID_PARAMETER, CODE_INVALID_RESPONSE,
    CODE_LOOP_CREATE_FAILED, CODE_LOOP_START_FAILED, CODE_LOOP_STOP_FAILED, CODE_MEMORY_EVOLVE_FAILED,
    CODE_MEMORY_NOT_FOUND, CODE_MEMORY_SEARCH_FAILED, CODE_MISSING_PARAMETER, CODE_NETWORK_ERROR, CODE_NOT_FOUND,
    CODE_NOT_SUPPORTED, CODE_PARSE_ERROR, CODE_PERMISSION_DENIED, CODE_RATE_LIMITED, CODE_SERVER_ERROR,
    CODE_SESSION_EXPIRED, CODE_SESSION_NOT_FOUND, CODE_SKILL_EXECUTION_FAILED, CODE_SKILL_NOT_FOUND, CODE_SUCCESS,
    CODE_TASK_CANCELLED, CODE_TASK_FAILED, CODE_TASK_TIMEOUT, CODE_TELEMETRY_ERROR, CODE_TIMEOUT,
    CODE_UNAUTHORIZED, CODE_UNKNOWN, CODE_VALIDATION_ERROR, LICENSE, VERSION,
};
use agentrt_rs::client::{parse_seconds, ClientBuilder};

#[test]
fn test_client_builder() {
    let client = ClientBuilder::new("http://localhost:18789")
        .api_key("test-key")
        .max_retries(5)
        .build();

    assert!(client.is_ok());
    let client = client.unwrap();
    assert_eq!(client.api_key(), Some("test-key"));
}

#[test]
fn test_client_invalid_endpoint() {
    let result = ClientBuilder::new("invalid-endpoint").build();
    match result {
        Ok(_) => panic!("building should fail with invalid endpoint"),
        Err(e) => {
            let text = e.to_string();
            assert!(
                text.contains("invalid") || text.contains("endpoint") || text.contains("URL") || text.contains("http"),
                "Error message should describe the invalid endpoint problem, got: {}",
                text
            );
        }
    }

    let result2 = ClientBuilder::new("").build();
    assert!(result2.is_ok(), "an empty endpoint should use the default");

    let result3 = ClientBuilder::new("ftp://not-http.com").build();
    match result3 {
        Ok(_) => {}
        Err(e) => {
            let text = e.to_string();
            assert!(
                text.contains("invalid") || text.contains("endpoint") || text.contains("scheme") || text.contains("http"),
                "Error message should describe the scheme problem, got: {}",
                text
            );
        }
    }
}

#[test]
fn builder_trims_trailing_slashes_and_keeps_defaults() {
    let config = ClientBuilder::new("https://api.example.com///").build().unwrap();
    assert_eq!(config.endpoint(), "https://api.example.com");
    assert_eq!(config.max_retries, 3);
    assert_eq!(config.user_agent, "AgentRT-Rust-tools/0.1.0");
    assert_eq!(config.max_connections, 10);
    assert_eq!(config.timeout, std::time::Duration::from_secs(30));
    assert_eq!(config.retry_delay, std::time::Duration::from_secs(1));
    assert_eq!(config.idle_conn_timeout, std::time::Duration::from_secs(90));
    assert_eq!(config.api_key(), None);
    let empty = ClientBuilder::new("").build().unwrap();
    assert_eq!(empty.endpoint(), "http://127.0.0.1:18789");
    let from_env = ClientBuilder::with_env("", Some("http://10.0.0.1:1".to_string()), None, None).build().unwrap();
    assert_eq!(from_env.endpoint(), "http://10.0.0.1:1");
}

#[test]
fn test_error_codes_consistency() {
    // 验证错误码与 Go SDK 一致
    assert_eq!(CODE_SUCCESS, "0x0000");
    assert_eq!(CODE_UNKNOWN, "0x0001");
    assert_eq!(CODE_INVALID_PARAMETER, "0x0002");
    assert_eq!(CODE_MISSING_PARAMETER, "0x0003");
    assert_eq!(CODE_TIMEOUT, "0x0004");
    assert_eq!(CODE_NOT_FOUND, "0x0005");
    assert_eq!(CODE_ALREADY_EXISTS, "0x0006");
    assert_eq!(CODE_CONFLICT, "0x0007");
    assert_eq!(CODE_INVALID_CONFIG, "0x0008");
    assert_eq!(CODE_INVALID_ENDPOINT, "0x0009");
    assert_eq!(CODE_NETWORK_ERROR, "0x000A");
    assert_eq!(CODE_CONNECTION_REFUSED, "0x000B");
    assert_eq!(CODE_SERVER_ERROR, "0x000C");
    assert_eq!(CODE_UNAUTHORIZED, "0x000D");
    assert_eq!(CODE_FORBIDDEN, "0x000E");
    assert_eq!(CODE_RATE_LIMITED, "0x000F");
    assert_eq!(CODE_INVALID_RESPONSE, "0x0010");
    assert_eq!(CODE_PARSE_ERROR, "0x0011");
    assert_eq!(CODE_VALIDATION_ERROR, "0x0012");
    assert_eq!(CODE_NOT_SUPPORTED, "0x0013");
    assert_eq!(CODE_INTERNAL, "0x0014");
    assert_eq!(CODE_BUSY, "0x0015");
}

#[test]
fn test_domain_error_codes() {
    // 核心循环错误 (0x1xxx)
    assert_eq!(CODE_LOOP_CREATE_FAILED, "0x1001");
    assert_eq!(CODE_LOOP_START_FAILED, "0x1002");
    assert_eq!(CODE_LOOP_STOP_FAILED, "0x1003");

    // 认知层错误 (0x2xxx)
    assert_eq!(CODE_COGNITION_FAILED, "0x2001");
    assert_eq!(CODE_DAG_BUILD_FAILED, "0x2002");
    assert_eq!(CODE_AGENT_DISPATCH_FAILED, "0x2003");
    assert_eq!(CODE_INTENT_PARSE_FAILED, "0x2004");

    // 执行层错误 (0x3xxx)
    assert_eq!(CODE_TASK_FAILED, "0x3001");
    assert_eq!(CODE_TASK_CANCELLED, "0x3002");
    assert_eq!(CODE_TASK_TIMEOUT, "0x3003");

    // 记忆层错误 (0x4xxx)
    assert_eq!(CODE_MEMORY_NOT_FOUND, "0x4001");
    assert_eq!(CODE_MEMORY_EVOLVE_FAILED, "0x4002");
    assert_eq!(CODE_MEMORY_SEARCH_FAILED, "0x4003");
    assert_eq!(CODE_SESSION_NOT_FOUND, "0x4004");
    assert_eq!(CODE_SESSION_EXPIRED, "0x4005");
    assert_eq!(CODE_SKILL_NOT_FOUND, "0x4006");
    assert_eq!(CODE_SKILL_EXECUTION_FAILED, "0x4007");

    // 系统调用错误 (0x5xxx)
    assert_eq!(CODE_TELEMETRY_ERROR, "0x5001");

    // 安全域错误 (0x6xxx)
    assert_eq!(CODE_PERMISSION_DENIED, "0x6001");
    assert_eq!(CODE_CORRUPTED_DATA, "0x6002");
}

// ============================================================
// 类型测试
// ============================================================

#[test]
fn integration_test_test_task_status() {
    assert_eq!(TaskStatus::Pending.as_str(), "pending");
    assert_eq!(TaskStatus::Running.as_str(), "running");
    assert_eq!(TaskStatus::Completed.as_str(), "completed");
    assert_eq!(TaskStatus::Failed.as_str(), "failed");
    assert_eq!(TaskStatus::Cancelled.as_str(), "cancelled");

    assert!(TaskStatus::Completed.is_terminal());
    assert!(TaskStatus::Failed.is_terminal());
    assert!(TaskStatus::Cancelled.is_terminal());
    assert!(!TaskStatus::Pending.is_terminal());
    assert!(!TaskStatus::Running.is_terminal());
}

#[test]
fn integration_test_test_memory_layer() {
    assert_eq!(MemoryLayer::L1.as_str(), "L1");
    assert_eq!(MemoryLayer::L2.as_str(), "L2");
    assert_eq!(MemoryLayer::L3.as_str(), "L3");
    assert_eq!(MemoryLayer::L4.as_str(), "L4");

    assert!(MemoryLayer::L1.is_valid());
    assert!(MemoryLayer::L2.is_valid());
    assert!(MemoryLayer::L3.is_valid());
    assert!(MemoryLayer::L4.is_valid());
}

#[test]
fn test_session_status() {
    assert_eq!(SessionStatus::Active.as_str(), "active");
    assert_eq!(SessionStatus::Inactive.as_str(), "inactive");
    assert_eq!(SessionStatus::Expired.as_str(), "expired");
}

#[test]
fn test_skill_status() {
    assert_eq!(SkillStatus::Active.as_str(), "active");
    assert_eq!(SkillStatus::Inactive.as_str(), "inactive");
    assert_eq!(SkillStatus::Deprecated.as_str(), "deprecated");
}

// ============================================================
// 工具函数测试
// ============================================================

#[test]
fn integration_test_test_generate_id() {
    let id1 = generate_id();
    let id2 = generate_id();
    assert_ne!(id1, id2);
    assert!(!id1.is_empty());
}

#[test]
fn integration_test_test_generate_task_id() {
    let id = generate_task_id();
    assert!(id.starts_with("task-"));
}

#[test]
fn integration_test_test_generate_memory_id() {
    let id = generate_memory_id();
    assert!(id.starts_with("mem-"));
}

#[test]
fn test_generate_session_id() {
    let id = generate_session_id();
    assert!(id.starts_with("session-"));
}

#[test]
fn integration_test_test_validate_endpoint() {
    assert!(validate_endpoint("http://localhost:18789"));
    assert!(validate_endpoint("https://api.example.com"));
    assert!(!validate_endpoint("invalid-endpoint"));
    assert!(!validate_endpoint("ftp://example.com"));
}

// ============================================================
// 错误处理测试
// ============================================================

#[test]
fn test_agentos_error_creation() {
    let err = AgentOSError::with_code(CODE_INVALID_PARAMETER, "参数无效");
    assert_eq!(err.code(), CODE_INVALID_PARAMETER);

    let err = AgentOSError::network("网络错误");
    assert!(err.is_network_error());

    let err = AgentOSError::timeout("超时");
    assert!(err.is_network_error());

    let err = AgentOSError::http("服务器错误");
    assert!(err.is_server_error());
}

#[test]
fn test_http_status_mapping() {
    assert_eq!(http_status_to_code(400), CODE_INVALID_PARAMETER);
    assert_eq!(http_status_to_code(401), CODE_UNAUTHORIZED);
    assert_eq!(http_status_to_code(403), CODE_FORBIDDEN);
    assert_eq!(http_status_to_code(404), CODE_NOT_FOUND);
    assert_eq!(http_status_to_code(408), CODE_TIMEOUT);
    assert_eq!(http_status_to_code(429), CODE_RATE_LIMITED);
    assert_eq!(http_status_to_code(500), CODE_SERVER_ERROR);
    assert_eq!(http_status_to_code(504), CODE_TIMEOUT);
}

// ============================================================
// 版本信息测试
// ============================================================

#[test]
fn test_version_info() {
    assert_eq!(VERSION, "0.1.0");
    assert_eq!(AUTHOR, "SPHARX Ltd.");
    assert_eq!(LICENSE, "MIT");
}


#[test]
fn test_client_creation() {
    let client = ClientBuilder::new("http://localhost:18789").build();
    assert!(client.is_ok());

    let client = client.unwrap();
    assert_eq!(client.endpoint(), "http://localhost:18789");
    assert_eq!(client.api_key(), None);
}

#[test]
fn test_client_with_api_key() {
    let client = ClientBuilder::new("http://localhost:18789").api_key("test-key").build();
    assert!(client.is_ok());

    let client = client.unwrap();
    assert_eq!(client.api_key(), Some("test-key"));
}

#[test]
fn test_new_client_with_api_key_function() {
    let client = ClientBuilder::new("http://localhost:18789").api_key("test-key").build();
    assert!(client.is_ok());
    let client = client.unwrap();
    assert_eq!(client.api_key(), Some("test-key"));
}

#[test]
fn builder_takes_settings_from_the_environment() {
    let config = ClientBuilder::with_env(
        "",
        Some("http://10.0.0.2:9".to_string()),
        Some("45".to_string()),
        Some("env-key".to_string()),
    )
    .build()
    .unwrap();
    assert_eq!(config.endpoint(), "http://10.0.0.2:9");
    assert_eq!(config.timeout, std::time::Duration::from_secs(45));
    assert_eq!(config.api_key(), Some("env-key"));

    let given = ClientBuilder::with_env("http://a:1/", Some("http://b:2".to_string()), Some("x5".to_string()), None)
        .build()
        .unwrap();
    assert_eq!(given.endpoint(), "http://a:1");
    assert_eq!(given.timeout, std::time::Duration::from_secs(30));
    assert_eq!(given.api_key(), None);
}

#[test]
fn seconds_settings_are_whole_decimal_numbers() {
    assert_eq!(parse_seconds("0"), Some(0));
    assert_eq!(parse_seconds("120"), Some(120));
    assert_eq!(parse_seconds("18446744073709551615"), Some(u64::MAX));
    assert_eq!(parse_seconds("18446744073709551616"), None);
    assert_eq!(parse_seconds(""), None);
    assert_eq!(parse_seconds("1.5"), None);
    assert_eq!(parse_seconds(" 3"), None);
}
