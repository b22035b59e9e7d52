//! Verified core of the AgentRT Rust SDK: error codes, domain types, JSON
//! handling, request building and response reading for the runtime's API,
//! the run-stream decoder, the plugin framework and hooks.

use vstd::prelude::*;

pub mod client;
pub mod error;
pub mod hook;
pub mod json;
pub mod memory;
pub mod modules;
pub mod plugin;
pub mod protocol;
pub mod run_stream;
pub mod session;
pub mod skill;
pub mod syscall;
pub mod task;
pub mod telemetry;
pub mod text;
pub mod types;
pub mod utils;

pub use client::{ClientBuilder, ClientConfig, ApiRequest, HttpMethod};
pub use error::{
    AgentOSError, ErrorCode, TransportFailure, http_status_to_code, http_status_to_error,
    CODE_SUCCESS, CODE_UNKNOWN, CODE_INVALID_PARAMETER, CODE_MISSING_PARAMETER, CODE_TIMEOUT, CODE_NOT_FOUND, CODE_ALREADY_EXISTS, CODE_CONFLICT, CODE_INVALID_CONFIG, CODE_INVALID_ENDPOINT, CODE_NETWORK_ERROR, CODE_CONNECTION_REFUSED, CODE_SERVER_ERROR, CODE_UNAUTHORIZED, CODE_FORBIDDEN, CODE_RATE_LIMITED, CODE_INVALID_RESPONSE, CODE_PARSE_ERROR, CODE_VALIDATION_ERROR, CODE_NOT_SUPPORTED, CODE_INTERNAL, CODE_BUSY, CODE_LOOP_CREATE_FAILED, CODE_LOOP_START_FAILED, CODE_LOOP_STOP_FAILED, CODE_COGNITION_FAILED, CODE_DAG_BUILD_FAILED, CODE_AGENT_DISPATCH_FAILED, CODE_INTENT_PARSE_FAILED, CODE_TASK_FAILED, CODE_TASK_CANCELLED, CODE_TASK_TIMEOUT, CODE_MEMORY_NOT_FOUND, CODE_MEMORY_EVOLVE_FAILED, CODE_MEMORY_SEARCH_FAILED, CODE_SESSION_NOT_FOUND, CODE_SESSION_EXPIRED, CODE_SKILL_NOT_FOUND, CODE_SKILL_EXECUTION_FAILED, CODE_TELEMETRY_ERROR, CODE_PERMISSION_DENIED, CODE_CORRUPTED_DATA,
};
pub use hook::{Hook, HookContext, HookResult};
pub use json::{JsonMap, JsonNumber, JsonValue, StringMap};
pub use plugin::{
    BasePlugin, PluginBox, PluginDependency, PluginFactory, PluginInfo, PluginManager, PluginManifest,
    PluginRegistry, PluginState, PluginType, SkillDefinition, SkillPlugin,
};
pub use run_stream::{RunStreamEnvelope, RunStreamKind, SseDecoder, decode_sse_frame};
pub use types::{
    TaskStatus, MemoryLayer, SessionStatus, SkillStatus, SpanStatus, Task, TaskResult, Memory,
    MemorySearchResult, Session, Skill, SkillResult, SkillInfo, RequestOptions, RequestOption, APIResponse,
    HealthStatus, Metrics, PaginationOptions, SortOptions, FilterOptions, ListOptions, with_request_timeout,
    with_header, with_query_param,
};
pub use utils::{
    extract_data_map, get_string, get_i64, get_f64, get_bool, get_map, get_string_map, get_array,
    get_interface_slice, extract_int64_stats, build_url, generate_id, generate_task_id, generate_memory_id,
    generate_session_id, validate_endpoint, deep_clone_value, merge_maps, parse_time, format_time,
    parse_time_from_map, UtcTime,
};

verus! {

/// SDK version.
pub const VERSION: &'static str = "0.1.0";

/// SDK author.
pub const AUTHOR: &'static str = "SPHARX Ltd.";

/// SDK license.
pub const LICENSE: &'static str = "MIT";

} // verus!
