use agentrt_rs::ClientBuilder;
use agentrt_rs::types;
use agentrt_rs::{
    CODE_AGENT_DISPATCH_FAILED, CODE_ALREADY_EXISTS, CODE_BUSY, CODE_COGNITION_FAILED, CODE_CONFLICT,
    CODE_CONNECTION_REFUSED, CODE_CORRUPTED_DATA, CODE_DAG_BUILD_FAILED, CODE_FORBIDDEN, CODE_INTENT_PARSE_FAILED,
    CODE_INTERNAL, CODE_INVALID_CONFIG, CODE_INVALID_ENDPOINT, CODE_INVALID_PARAMETER, CODE_INVALID_RESPONSE,
    CODE_LOOP_CREATE_FAILED, CODE_LOOP_START_FAILED, CODE_LOOP_STOP_FAILED, CODE_MEMORY_EVOLVE_FAILED,
    CODE_MEMORY_NOT_FOUND, CODE_MEMORY_SEARCH_FAILED, CODE_MISSING_PARAMETER, CODE_NETWORK_ERROR, CODE_NOT_FOUND,
    CODE_NOT_SUPPORTED, CODE_PARSE_ERROR, CODE_PERMISSION_DENIED, CODE_RATE_LIMITED, CODE_SERVER_ERROR,
    CODE_SESSION_EXPIRED, CODE_SESSION_NOT_FOUND, CODE_SKILL_EXECUTION_FAILED, CODE_SKILL_NOT_FOUND, CODE_SUCCESS,
    CODE_TASK_CANCELLED, CODE_TASK_FAILED, CODE_TASK_TIMEOUT, CODE_TELEMETRY_ERROR, CODE_TIMEOUT,
    CODE_UNAUTHORIZED, CODE_UNKNOWN, CODE_VALIDATION_ERROR,
};

#[test]
fn test_types_module_export() {
    let _status: types::TaskStatus = types::TaskStatus::Pending;
    let _layer: types::MemoryLayer = types::MemoryLayer::L1;
    let _session_status: types::SessionStatus = types::SessionStatus::Active;
    let _skill_status: types::SkillStatus = types::SkillStatus::Active;
}

#[test]
fn test_utils_module_export() {
    let id = agentrt_rs::utils::generate_id();
    assert!(!id.is_empty());

    let is_valid = agentrt_rs::utils::validate_endpoint("http://localhost:18789");
    assert!(is_valid);
}

#[test]
fn test_error_code_consistency_with_go_sdk() {
    assert_eq!(CODE_SUCCESS, "0x0000");
    assert_eq!(CODE_UNKNOWN, "0x0001");
    assert_eq!(CODE_INVALID_PARAMETER, "0x0002");
    assert_eq!(CODE_MISSING_PARAMETER, "0x0003");
    assert_eq!(CODE_TIMEOUT, "0x0004");
    assert_eq!(CODE_NOT_FOUND, "0x0005");
    assert_eq!(CODE_ALREADY_EXISTS, "0x0006");
    assert_eq!(CODE_CONFLICT, "0x0007");
    assert_eq!(CODE_INVALID_CONFIG, "0x0008");
    assert_eq!(CODE_INVALID_ENDPOINT, "0x0009");
    assert_eq!(CODE_NETWORK_ERROR, "0x000A");
    assert_eq!(CODE_CONNECTION_REFUSED, "0x000B");
    assert_eq!(CODE_SERVER_ERROR, "0x000C");
    assert_eq!(CODE_UNAUTHORIZED, "0x000D");
    assert_eq!(CODE_FORBIDDEN, "0x000E");
    assert_eq!(CODE_RATE_LIMITED, "0x000F");
    assert_eq!(CODE_INVALID_RESPONSE, "0x0010");
    assert_eq!(CODE_PARSE_ERROR, "0x0011");
    assert_eq!(CODE_VALIDATION_ERROR, "0x0012");
    assert_eq!(CODE_NOT_SUPPORTED, "0x0013");
    assert_eq!(CODE_INTERNAL, "0x0014");
    assert_eq!(CODE_BUSY, "0x0015");

    assert_eq!(CODE_LOOP_CREATE_FAILED, "0x1001");
    assert_eq!(CODE_LOOP_START_FAILED, "0x1002");
    assert_eq!(CODE_LOOP_STOP_FAILED, "0x1003");

    assert_eq!(CODE_COGNITION_FAILED, "0x2001");
    assert_eq!(CODE_DAG_BUILD_FAILED, "0x2002");
    assert_eq!(CODE_AGENT_DISPATCH_FAILED, "0x2003");
    assert_eq!(CODE_INTENT_PARSE_FAILED, "0x2004");

    assert_eq!(CODE_TASK_FAILED, "0x3001");
    assert_eq!(CODE_TASK_CANCELLED, "0x3002");
    assert_eq!(CODE_TASK_TIMEOUT, "0x3003");

    assert_eq!(CODE_MEMORY_NOT_FOUND, "0x4001");
    assert_eq!(CODE_MEMORY_EVOLVE_FAILED, "0x4002");
    assert_eq!(CODE_MEMORY_SEARCH_FAILED, "0x4003");
    assert_eq!(CODE_SESSION_NOT_FOUND, "0x4004");
    assert_eq!(CODE_SESSION_EXPIRED, "0x4005");
    assert_eq!(CODE_SKILL_NOT_FOUND, "0x4006");
    assert_eq!(CODE_SKILL_EXECUTION_FAILED, "0x4007");

    assert_eq!(CODE_TELEMETRY_ERROR, "0x5001");

    assert_eq!(CODE_PERMISSION_DENIED, "0x6001");
    assert_eq!(CODE_CORRUPTED_DATA, "0x6002");
}

#[test]
fn test_backward_compatibility() {
    let client = ClientBuilder::new("http://localhost:18789").build();
    assert!(client.is_ok(), "Client::new should succeed with valid endpoint");

    // 空端点现在使用默认值 http://127.0.0.1:18789
    let default_client = ClientBuilder::new("").build();
    assert!(default_client.is_ok(), "Client::new with empty endpoint should use default");

    let bad_client2 = ClientBuilder::new("not-a-url").build();
    assert!(bad_client2.is_err(), "Client::new should fail with invalid endpoint");
}
