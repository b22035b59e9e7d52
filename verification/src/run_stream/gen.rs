//! Wire names of the `agent.run_stream` event envelope (protocol version 1):
//! the envelope's keys, the keys of some payloads, and the event types.

use vstd::prelude::*;

verus! {

/// Version of the envelope protocol.
pub const AIRY_RS_VERSION: i64 = 1;

/// Envelope keys.
pub const AIRY_RS_K_V: &'static str = "v";
pub const AIRY_RS_K_TYPE: &'static str = "type";
pub const AIRY_RS_K_ID: &'static str = "id";
pub const AIRY_RS_K_RUN_ID: &'static str = "run_id";
pub const AIRY_RS_K_SESSION: &'static str = "session_id";
pub const AIRY_RS_K_TS: &'static str = "ts";
pub const AIRY_RS_K_EPOCH: &'static str = "epoch";
pub const AIRY_RS_K_DATA: &'static str = "data";

/// Payload keys.
pub const AIRY_RS_K_PROMPT: &'static str = "prompt";
pub const AIRY_RS_K_STATUS: &'static str = "status";

/// Event types.
pub const AIRY_RS_TYPE_RUN_START: &'static str = "run_start";
pub const AIRY_RS_TYPE_RUN_END: &'static str = "run_end";
pub const AIRY_RS_TYPE_ERROR: &'static str = "error";
pub const AIRY_RS_TYPE_PLAN: &'static str = "plan";
pub const AIRY_RS_TYPE_TOOL_START: &'static str = "tool_start";
pub const AIRY_RS_TYPE_TOOL_END: &'static str = "tool_end";
pub const AIRY_RS_TYPE_TOOL_DELTA: &'static str = "tool_delta";
pub const AIRY_RS_TYPE_TOKEN_DELTA: &'static str = "token_delta";
pub const AIRY_RS_TYPE_MESSAGE: &'static str = "message";

} // verus!
