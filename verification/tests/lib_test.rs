use agentrt_rs::ClientBuilder;
use agentrt_rs::{
    http_status_to_code, MemoryLayer, TaskStatus, AUTHOR, CODE_FORBIDDEN, CODE_INVALID_PARAMETER,
    CODE_MEMORY_NOT_FOUND, CODE_NETWORK_ERROR, CODE_NOT_FOUND, CODE_RATE_LIMITED, CODE_SERVER_ERROR,
    CODE_SESSION_NOT_FOUND, CODE_SKILL_NOT_FOUND, CODE_SUCCESS, CODE_TASK_FAILED, CODE_TIMEOUT,
    CODE_UNAUTHORIZED, CODE_UNKNOWN, LICENSE, VERSION,
};

#[test]
fn test_version() {
    assert_eq!(VERSION, "0.1.0");
}

#[test]
fn test_author() {
    assert_eq!(AUTHOR, "SPHARX Ltd.");
}

#[test]
fn test_license() {
    assert_eq!(LICENSE, "MIT");
}

#[test]
fn test_error_codes_general() {
    assert_eq!(CODE_SUCCESS, "0x0000");
    assert_eq!(CODE_UNKNOWN, "0x0001");
    assert_eq!(CODE_INVALID_PARAMETER, "0x0002");
    assert_eq!(CODE_TIMEOUT, "0x0004");
    assert_eq!(CODE_NOT_FOUND, "0x0005");
    assert_eq!(CODE_NETWORK_ERROR, "0x000A");
    assert_eq!(CODE_SERVER_ERROR, "0x000C");
}

#[test]
fn test_error_codes_domain() {
    assert_eq!(CODE_TASK_FAILED, "0x3001");
    assert_eq!(CODE_MEMORY_NOT_FOUND, "0x4001");
    assert_eq!(CODE_SESSION_NOT_FOUND, "0x4004");
    assert_eq!(CODE_SKILL_NOT_FOUND, "0x4006");
}

#[test]
fn lib_test_http_status_to_code() {
    assert_eq!(http_status_to_code(400), CODE_INVALID_PARAMETER);
    assert_eq!(http_status_to_code(401), CODE_UNAUTHORIZED);
    assert_eq!(http_status_to_code(403), CODE_FORBIDDEN);
    assert_eq!(http_status_to_code(404), CODE_NOT_FOUND);
    assert_eq!(http_status_to_code(408), CODE_TIMEOUT);
    assert_eq!(http_status_to_code(429), CODE_RATE_LIMITED);
    assert_eq!(http_status_to_code(500), CODE_SERVER_ERROR);
    assert_eq!(http_status_to_code(504), CODE_TIMEOUT);
    assert_eq!(http_status_to_code(418), CODE_UNKNOWN);
}

#[test]
fn lib_test_task_status() {
    assert!(TaskStatus::Completed.is_terminal());
    assert!(TaskStatus::Failed.is_terminal());
    assert!(TaskStatus::Cancelled.is_terminal());
    assert!(!TaskStatus::Pending.is_terminal());
    assert!(!TaskStatus::Running.is_terminal());
}

#[test]
fn lib_test_memory_layer() {
    assert!(MemoryLayer::L1.is_valid());
    assert!(MemoryLayer::L2.is_valid());
    assert!(MemoryLayer::L3.is_valid());
    assert!(MemoryLayer::L4.is_valid());
}

#[test]
fn test_new_client() {
    let client = ClientBuilder::new("http://localhost:18789").build();
    assert!(client.is_ok());
}

#[test]
fn test_new_client_with_api_key() {
    let client = ClientBuilder::new("http://localhost:18789").api_key("test-api-key").build();
    assert!(client.is_ok());
    let client = client.unwrap();
    assert_eq!(client.api_key(), Some("test-api-key"));
}
