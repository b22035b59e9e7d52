//! Hooks: interceptors of the runtime's lifecycle events, with the context
//! they are given and the result they answer.

use vstd::prelude::*;
use crate::json::{JsonMap, JsonValue, Json, NumberModel};
use crate::text::owned;

verus! {

broadcast use {vstd::std_specs::vec::group_vec_axioms, vstd::string::group_string_axioms};

/// What a hook is told about an event.
#[derive(Debug)]
pub struct HookContext {
    pub event: String,
    pub agent_id: String,
    pub session_id: String,
    pub timestamp: String,
    pub metadata: JsonMap,
}

impl HookContext {
    /// The context of an event, stamped with the current time as RFC 3339
    /// text, with no agent, session or metadata.
    pub fn new(event: &str) -> (r: HookContext)
        ensures
            r.event@ == event@,
            r.agent_id@.len() == 0,
            r.session_id@.len() == 0,
            exists|t: crate::utils::UtcTime| r.timestamp@ == #[trigger] crate::utils::rfc3339_text(t.secs, t.nanos),
            r.metadata.model().len() == 0,
    {
        HookContext {
            event: owned(event),
            agent_id: String::new(),
            session_id: String::new(),
            timestamp: crate::utils::utc_now_rfc3339(),
            metadata: JsonMap::new(),
        }
    }
}

/// A hook's answer: whether the event may go on, data to use in its place,
/// messages and metadata.
#[derive(Debug)]
pub struct HookResult {
    pub allowed: bool,
    pub modified_data: Option<JsonValue>,
    pub messages: Vec<String>,
    pub metadata: JsonMap,
}

impl HookResult {
    /// Lets the event go on.
    pub fn allow() -> (r: HookResult)
        ensures
            r.allowed,
            r.modified_data is None,
            r.messages@.len() == 0,
            r.metadata.model().len() == 0,
    {
        HookResult { allowed: true, modified_data: None, messages: Vec::new(), metadata: JsonMap::new() }
    }

    /// Stops the event, giving the reason as the one message.
    pub fn deny(reason: &str) -> (r: HookResult)
        ensures
            !r.allowed,
            r.modified_data is None,
            r.messages@.len() == 1,
            r.messages@[0]@ == reason@,
            r.metadata.model().len() == 0,
    {
        let mut messages: Vec<String> = Vec::new();
        messages.push(owned(reason));
        HookResult { allowed: false, modified_data: None, messages, metadata: JsonMap::new() }
    }

    /// Lets the event go on with this data in place of its own.
    pub fn with_modified_data(data: JsonValue) -> (r: HookResult)
        ensures
            r.allowed,
            r.modified_data == Some(data),
            r.messages@.len() == 0,
            r.metadata.model().len() == 0,
    {
        HookResult { allowed: true, modified_data: Some(data), messages: Vec::new(), metadata: JsonMap::new() }
    }
}

/// The registration record of a hook with this name, version, priority and
/// enabled flag.
pub open spec fn hook_info_model(name: Seq<char>, version: Seq<char>, priority: u8, enabled: bool) -> Seq<(Seq<char>, Json)> {
    seq![
        ("name"@, Json::Str(name)),
        ("version"@, Json::Str(version)),
        ("priority"@, Json::Number(NumberModel::PosInt(priority as u64))),
        ("enabled"@, Json::Bool(enabled)),
    ]
}

/// The registration record of a hook.
pub fn hook_info(name: &str, version: &str, priority: u8, enabled: bool) -> (r: JsonMap)
    ensures
        r.model() == hook_info_model(name@, version@, priority, enabled),
{
    let mut entries: Vec<(String, JsonValue)> = Vec::new();
    entries.push((owned("name"), JsonValue::String(owned(name))));
    entries.push((owned("version"), JsonValue::String(owned(version))));
    entries.push((owned("priority"), JsonValue::from_u64(priority as u64)));
    entries.push((owned("enabled"), JsonValue::Bool(enabled)));
    let r = JsonMap { entries };
    assert(r.model() =~= hook_info_model(name@, version@, priority, enabled));
    r
}

/// `r` lets the event go on, with no replacement data, no messages and no
/// metadata: what `HookResult::allow` gives.
pub open spec fn lets_through(r: HookResult) -> bool {
    &&& r.allowed
    &&& r.modified_data is None
    &&& r.messages@.len() == 0
    &&& r.metadata.model().len() == 0
}

/// An interceptor of lifecycle events. Every event handler lets the event
/// go on unless the hook says otherwise; by default a hook is at version
/// "0.1.0", has priority 50 (of 0 to 100, higher first), is enabled and
/// lists no events.
pub trait Hook: Send + Sync {
    fn name(&self) -> &str;

    fn version(&self) -> (r: &str)
        default_ensures
            r@ == "0.1.0"@,
    {
        "0.1.0"
    }

    fn priority(&self) -> (r: u8)
        default_ensures
            r == 50,
    {
        50
    }

    fn enabled(&self) -> (r: bool)
        default_ensures
            r,
    {
        true
    }

    fn events(&self) -> (r: Vec<String>)
        default_ensures
            r@.len() == 0,
    {
        Vec::new()
    }

    fn on_agent_start(&mut self, ctx: &HookContext, data: Option<&JsonValue>) -> (r: HookResult)
        default_ensures
            lets_through(r),
    {
        HookResult::allow()
    }

    fn on_agent_end(&mut self, ctx: &HookContext, data: Option<&JsonValue>) -> (r: HookResult)
        default_ensures
            lets_through(r),
    {
        HookResult::allow()
    }

    fn on_tool_call(&mut self, ctx: &HookContext, tool_name: &str, tool_input: Option<&JsonValue>) -> (r: HookResult)
        default_ensures
            lets_through(r),
    {
        HookResult::allow()
    }

    fn on_tool_result(&mut self, ctx: &HookContext, tool_name: &str, result: Option<&JsonValue>) -> (r: HookResult)
        default_ensures
            lets_through(r),
    {
        HookResult::allow()
    }

    fn on_llm_request(&mut self, ctx: &HookContext, messages: Option<&JsonValue>, model: &str) -> (r: HookResult)
        default_ensures
            lets_through(r),
    {
        HookResult::allow()
    }

    fn on_llm_response(
        &mut self,
        ctx: &HookContext,
        response: Option<&JsonValue>,
        usage: Option<&Vec<(String, u64)>>,
    ) -> (r: HookResult)
        default_ensures
            lets_through(r),
    {
        HookResult::allow()
    }

    fn on_memory_read(&mut self, ctx: &HookContext, key: &str, layer: &str) -> (r: HookResult)
        default_ensures
            lets_through(r),
    {
        HookResult::allow()
    }

    fn on_memory_write(&mut self, ctx: &HookContext, key: &str, data: Option<&JsonValue>) -> (r: HookResult)
        default_ensures
            lets_through(r),
    {
        HookResult::allow()
    }

    fn get_hook_info(&self) -> (r: JsonMap)
        default_ensures
            exists|name: Seq<char>, version: Seq<char>, priority: u8, enabled: bool|
                r.model() == #[trigger] hook_info_model(name, version, priority, enabled),
    {
        hook_info(self.name(), self.version(), self.priority(), self.enabled())
    }
}

} // verus!
