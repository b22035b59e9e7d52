//! System calls: requests to the runtime's system-call interface, made
//! through a binding that carries them.

use vstd::prelude::*;
use crate::error::AgentOSError;
use crate::json::{Json, JsonMap, JsonValue, NumberModel};
use crate::text::{concat3, owned};

verus! {

broadcast use {vstd::std_specs::vec::group_vec_axioms, vstd::string::group_string_axioms};

/// The area of the runtime a system call belongs to.
#[derive(Debug, Clone, Copy, PartialEq, Eq, Structural)]
pub enum SyscallNamespace {
    Task,
    Memory,
    Session,
    Skill,
    Agent,
    Telemetry,
}

impl SyscallNamespace {
    /// The namespace's name.
    pub open spec fn name(self) -> Seq<char> {
        match self {
            SyscallNamespace::Task => "task"@,
            SyscallNamespace::Memory => "memory"@,
            SyscallNamespace::Session => "session"@,
            SyscallNamespace::Skill => "skill"@,
            SyscallNamespace::Agent => "agent"@,
            SyscallNamespace::Telemetry => "telemetry"@,
        }
    }

    /// The namespace's name.
    pub fn as_str(&self) -> (r: &'static str)
        ensures
            r@ == self.name(),
    {
        match self {
            SyscallNamespace::Task => "task",
            SyscallNamespace::Memory => "memory",
            SyscallNamespace::Session => "session",
            SyscallNamespace::Skill => "skill",
            SyscallNamespace::Agent => "agent",
            SyscallNamespace::Telemetry => "telemetry",
        }
    }

    /// The namespace's name, owned.
    pub fn to_string(&self) -> (r: String)
        ensures
            r@ == self.name(),
    {
        owned(self.as_str())
    }
}

/// A system call: its namespace, operation and parameters.
#[derive(Debug)]
pub struct SyscallRequest {
    pub namespace: SyscallNamespace,
    pub operation: String,
    pub params: JsonMap,
}

/// The answer to a system call.
#[derive(Debug)]
pub struct SyscallResponse {
    pub success: bool,
    pub data: Option<JsonValue>,
    pub error: Option<String>,
}

/// Carries system calls to the runtime. Implementations decide how.
pub trait SyscallBinding {
    /// `r` is an answer this binding may give to `request`. A binding that
    /// says nothing of its answers keeps this default, which admits every
    /// answer; one that overrides it states what its answers are.
    open spec fn answers(&self, request: SyscallRequest, r: Result<SyscallResponse, AgentOSError>) -> bool {
        true
    }

    /// Carries the call and gives back the runtime's answer.
    fn invoke(&self, request: SyscallRequest) -> (r: Result<SyscallResponse, AgentOSError>)
        ensures
            self.answers(request, r);
}

/// `r` is what `binding` answered to a call `operation` in `namespace`
/// with these parameters.
pub open spec fn answered<B: SyscallBinding>(
    binding: B,
    namespace: SyscallNamespace,
    operation: Seq<char>,
    params: Seq<(Seq<char>, Json)>,
    r: Result<SyscallResponse, AgentOSError>,
) -> bool {
    exists|request: SyscallRequest|
        #[trigger] binding.answers(request, r) && request_is(request, namespace, operation, params)
}

/// `r` is the call `operation` in `namespace` with these parameters.
pub open spec fn request_is(r: SyscallRequest, namespace: SyscallNamespace, operation: Seq<char>, params: Seq<(Seq<char>, Json)>) -> bool {
    r.namespace == namespace && r.operation@ == operation && r.params.model() == params
}

/// The URL system calls of a namespace are posted to: the base URL without
/// trailing slashes, then `/api/v1/syscall/` and the namespace.
pub fn syscall_url(base_url: &str, namespace: SyscallNamespace) -> (r: String)
    ensures
        r@ == crate::client::trim_trailing_slashes(base_url@) + "/api/v1/syscall/"@ + namespace.name(),
{
    let base = crate::client::strip_trailing_slashes(base_url);
    concat3(base.as_str(), "/api/v1/syscall/", namespace.as_str())
}

/// The view of an optional JSON value.
pub open spec fn opt_value_model(o: Option<JsonValue>) -> Option<Json> {
    match o {
        Some(v) => Some(v.model()),
        None => None,
    }
}

fn text(s: &str) -> (r: JsonValue)
    ensures
        r.model() == Json::Str(s@),
{
    JsonValue::String(owned(s))
}

/// The `submit` call of the task namespace.
pub fn task_submit_request(description: &str) -> (r: SyscallRequest)
    ensures
        request_is(r, SyscallNamespace::Task, "submit"@, seq![("description"@, Json::Str(description@))]),
{
    let ghost expected = seq![("description"@, Json::Str(description@))];
    let mut entries: Vec<(String, JsonValue)> = Vec::new();
    entries.push((owned("description"), text(description)));
    let params = JsonMap { entries };
    assert(params.model() =~= expected);
    SyscallRequest { namespace: SyscallNamespace::Task, operation: owned("submit"), params }
}

/// The `query` call of the task namespace.
pub fn task_query_request(task_id: &str) -> (r: SyscallRequest)
    ensures
        request_is(r, SyscallNamespace::Task, "query"@, seq![("task_id"@, Json::Str(task_id@))]),
{
    let ghost expected = seq![("task_id"@, Json::Str(task_id@))];
    let mut entries: Vec<(String, JsonValue)> = Vec::new();
    entries.push((owned("task_id"), text(task_id)));
    let params = JsonMap { entries };
    assert(params.model() =~= expected);
    SyscallRequest { namespace: SyscallNamespace::Task, operation: owned("query"), params }
}

/// The `wait` call of the task namespace.
pub fn task_wait_request(task_id: &str, timeout_ms: u32) -> (r: SyscallRequest)
    ensures
        request_is(r, SyscallNamespace::Task, "wait"@, seq![("task_id"@, Json::Str(task_id@)), ("timeout_ms"@, Json::Number(NumberModel::PosInt(timeout_ms as u64)))]),
{
    let ghost expected = seq![("task_id"@, Json::Str(task_id@)), ("timeout_ms"@, Json::Number(NumberModel::PosInt(timeout_ms as u64)))];
    let mut entries: Vec<(String, JsonValue)> = Vec::new();
    entries.push((owned("task_id"), text(task_id)));
    entries.push((owned("timeout_ms"), JsonValue::from_u64(timeout_ms as u64)));
    let params = JsonMap { entries };
    assert(params.model() =~= expected);
    SyscallRequest { namespace: SyscallNamespace::Task, operation: owned("wait"), params }
}

/// The `cancel` call of the task namespace.
pub fn task_cancel_request(task_id: &str) -> (r: SyscallRequest)
    ensures
        request_is(r, SyscallNamespace::Task, "cancel"@, seq![("task_id"@, Json::Str(task_id@))]),
{
    let ghost expected = seq![("task_id"@, Json::Str(task_id@))];
    let mut entries: Vec<(String, JsonValue)> = Vec::new();
    entries.push((owned("task_id"), text(task_id)));
    let params = JsonMap { entries };
    assert(params.model() =~= expected);
    SyscallRequest { namespace: SyscallNamespace::Task, operation: owned("cancel"), params }
}

/// The task system calls, made through a binding.
pub struct TaskSyscall<B: SyscallBinding> {
    binding: B,
}

impl<B: SyscallBinding> TaskSyscall<B> {
    /// The binding the calls go through.
    pub closed spec fn binding(&self) -> B {
        self.binding
    }

    /// The task system calls over this binding.
    pub fn new(binding: B) -> (r: Self)
        ensures
            r.binding() == binding,
    {
        TaskSyscall { binding }
    }


    /// Makes the `submit` call through the binding.
    pub fn submit(&self, description: &str) -> (r: Result<SyscallResponse, AgentOSError>)
        ensures
            answered(self.binding(), SyscallNamespace::Task, "submit"@, seq![("description"@, Json::Str(description@))], r),
    {
        let request = task_submit_request(description);
        let ghost sent = request;
        let r = self.binding.invoke(request);
        assert(self.binding().answers(sent, r));
        r
    }


    /// Makes the `query` call through the binding.
    pub fn query(&self, task_id: &str) -> (r: Result<SyscallResponse, AgentOSError>)
        ensures
            answered(self.binding(), SyscallNamespace::Task, "query"@, seq![("task_id"@, Json::Str(task_id@))], r),
    {
        let request = task_query_request(task_id);
        let ghost sent = request;
        let r = self.binding.invoke(request);
        assert(self.binding().answers(sent, r));
        r
    }


    /// Makes the `wait` call through the binding.
    pub fn wait(&self, task_id: &str, timeout_ms: u32) -> (r: Result<SyscallResponse, AgentOSError>)
        ensures
            answered(self.binding(), SyscallNamespace::Task, "wait"@, seq![("task_id"@, Json::Str(task_id@)), ("timeout_ms"@, Json::Number(NumberModel::PosInt(timeout_ms as u64)))], r),
    {
        let request = task_wait_request(task_id, timeout_ms);
        let ghost sent = request;
        let r = self.binding.invoke(request);
        assert(self.binding().answers(sent, r));
        r
    }


    /// Makes the `cancel` call through the binding.
    pub fn cancel(&self, task_id: &str) -> (r: Result<SyscallResponse, AgentOSError>)
        ensures
            answered(self.binding(), SyscallNamespace::Task, "cancel"@, seq![("task_id"@, Json::Str(task_id@))], r),
    {
        let request = task_cancel_request(task_id);
        let ghost sent = request;
        let r = self.binding.invoke(request);
        assert(self.binding().answers(sent, r));
        r
    }

}

/// The `write` call of the memory namespace.
pub fn memory_write_request(content: &str, metadata: Option<JsonValue>) -> (r: SyscallRequest)
    ensures
        request_is(r, SyscallNamespace::Memory, "write"@, match opt_value_model(metadata) {
            Some(v) => seq![("content"@, Json::Str(content@))].push(("metadata"@, v)),
            None => seq![("content"@, Json::Str(content@))],
        }),
{
    let ghost expected = match opt_value_model(metadata) { Some(v) => seq![("content"@, Json::Str(content@))].push(("metadata"@, v)), None => seq![("content"@, Json::Str(content@))] };
    let mut entries: Vec<(String, JsonValue)> = Vec::new();
    entries.push((owned("content"), text(content)));
    match metadata {
        Some(v) => {
            entries.push((owned("metadata"), v));
        },
        None => {},
    }
    let params = JsonMap { entries };
    assert(params.model() =~= expected);
    SyscallRequest { namespace: SyscallNamespace::Memory, operation: owned("write"), params }
}

/// The `read` call of the memory namespace.
pub fn memory_read_request(memory_id: &str) -> (r: SyscallRequest)
    ensures
        request_is(r, SyscallNamespace::Memory, "read"@, seq![("memory_id"@, Json::Str(memory_id@))]),
{
    let ghost expected = seq![("memory_id"@, Json::Str(memory_id@))];
    let mut entries: Vec<(String, JsonValue)> = Vec::new();
    entries.push((owned("memory_id"), text(memory_id)));
    let params = JsonMap { entries };
    assert(params.model() =~= expected);
    SyscallRequest { namespace: SyscallNamespace::Memory, operation: owned("read"), params }
}

/// The `get` call of the memory namespace.
pub fn memory_get_request(memory_id: &str) -> (r: SyscallRequest)
    ensures
        request_is(r, SyscallNamespace::Memory, "get"@, seq![("memory_id"@, Json::Str(memory_id@))]),
{
    let ghost expected = seq![("memory_id"@, Json::Str(memory_id@))];
    let mut entries: Vec<(String, JsonValue)> = Vec::new();
    entries.push((owned("memory_id"), text(memory_id)));
    let params = JsonMap { entries };
    assert(params.model() =~= expected);
    SyscallRequest { namespace: SyscallNamespace::Memory, operation: owned("get"), params }
}

/// The `search` call of the memory namespace.
pub fn memory_search_request(query: &str, top_k: u32) -> (r: SyscallRequest)
    ensures
        request_is(r, SyscallNamespace::Memory, "search"@, seq![("query"@, Json::Str(query@)), ("top_k"@, Json::Number(NumberModel::PosInt(top_k as u64)))]),
{
    let ghost expected = seq![("query"@, Json::Str(query@)), ("top_k"@, Json::Number(NumberModel::PosInt(top_k as u64)))];
    let mut entries: Vec<(String, JsonValue)> = Vec::new();
    entries.push((owned("query"), text(query)));
    entries.push((owned("top_k"), JsonValue::from_u64(top_k as u64)));
    let params = JsonMap { entries };
    assert(params.model() =~= expected);
    SyscallRequest { namespace: SyscallNamespace::Memory, operation: owned("search"), params }
}

/// The `delete` call of the memory namespace.
pub fn memory_delete_request(memory_id: &str) -> (r: SyscallRequest)
    ensures
        request_is(r, SyscallNamespace::Memory, "delete"@, seq![("memory_id"@, Json::Str(memory_id@))]),
{
    let ghost expected = seq![("memory_id"@, Json::Str(memory_id@))];
    let mut entries: Vec<(String, JsonValue)> = Vec::new();
    entries.push((owned("memory_id"), text(memory_id)));
    let params = JsonMap { entries };
    assert(params.model() =~= expected);
    SyscallRequest { namespace: SyscallNamespace::Memory, operation: owned("delete"), params }
}

/// The memory system calls, made through a binding.
pub struct MemorySyscall<B: SyscallBinding> {
    binding: B,
}

impl<B: SyscallBinding> MemorySyscall<B> {
    /// The binding the calls go through.
    pub closed spec fn binding(&self) -> B {
        self.binding
    }

    /// The memory system calls over this binding.
    pub fn new(binding: B) -> (r: Self)
        ensures
            r.binding() == binding,
    {
        MemorySyscall { binding }
    }


    /// Makes the `write` call through the binding.
    pub fn write(&self, content: &str, metadata: Option<JsonValue>) -> (r: Result<SyscallResponse, AgentOSError>)
        ensures
            answered(self.binding(), SyscallNamespace::Memory, "write"@, match opt_value_model(metadata) {
                Some(v) => seq![("content"@, Json::Str(content@))].push(("metadata"@, v)),
                None => seq![("content"@, Json::Str(content@))],
            }, r),
    {
        let request = memory_write_request(content, metadata);
        let ghost sent = request;
        let r = self.binding.invoke(request);
        assert(self.binding().answers(sent, r));
        r
    }


    /// Makes the `read` call through the binding.
    pub fn read(&self, memory_id: &str) -> (r: Result<SyscallResponse, AgentOSError>)
        ensures
            answered(self.binding(), SyscallNamespace::Memory, "read"@, seq![("memory_id"@, Json::Str(memory_id@))], r),
    {
        let request = memory_read_request(memory_id);
        let ghost sent = request;
        let r = self.binding.invoke(request);
        assert(self.binding().answers(sent, r));
        r
    }


    /// Makes the `get` call through the binding.
    pub fn get(&self, memory_id: &str) -> (r: Result<SyscallResponse, AgentOSError>)
        ensures
            answered(self.binding(), SyscallNamespace::Memory, "get"@, seq![("memory_id"@, Json::Str(memory_id@))], r),
    {
        let request = memory_get_request(memory_id);
        let ghost sent = request;
        let r = self.binding.invoke(request);
        assert(self.binding().answers(sent, r));
        r
    }


    /// Makes the `search` call through the binding.
    pub fn search(&self, query: &str, top_k: u32) -> (r: Result<SyscallResponse, AgentOSError>)
        ensures
            answered(self.binding(), SyscallNamespace::Memory, "search"@, seq![("query"@, Json::Str(query@)), ("top_k"@, Json::Number(NumberModel::PosInt(top_k as u64)))], r),
    {
        let request = memory_search_request(query, top_k);
        let ghost sent = request;
        let r = self.binding.invoke(request);
        assert(self.binding().answers(sent, r));
        r
    }


    /// Makes the `delete` call through the binding.
    pub fn delete(&self, memory_id: &str) -> (r: Result<SyscallResponse, AgentOSError>)
        ensures
            answered(self.binding(), SyscallNamespace::Memory, "delete"@, seq![("memory_id"@, Json::Str(memory_id@))], r),
    {
        let request = memory_delete_request(memory_id);
        let ghost sent = request;
        let r = self.binding.invoke(request);
        assert(self.binding().answers(sent, r));
        r
    }

}

/// The `create` call of the session namespace.
pub fn session_create_request() -> (r: SyscallRequest)
    ensures
        request_is(r, SyscallNamespace::Session, "create"@, Seq::<(Seq<char>, Json)>::empty()),
{
    let ghost expected = Seq::<(Seq<char>, Json)>::empty();
    let mut entries: Vec<(String, JsonValue)> = Vec::new();
    let params = JsonMap { entries };
    assert(params.model() =~= expected);
    SyscallRequest { namespace: SyscallNamespace::Session, operation: owned("create"), params }
}

/// The `get` call of the session namespace.
pub fn session_get_request(session_id: &str) -> (r: SyscallRequest)
    ensures
        request_is(r, SyscallNamespace::Session, "get"@, seq![("session_id"@, Json::Str(session_id@))]),
{
    let ghost expected = seq![("session_id"@, Json::Str(session_id@))];
    let mut entries: Vec<(String, JsonValue)> = Vec::new();
    entries.push((owned("session_id"), text(session_id)));
    let params = JsonMap { entries };
    assert(params.model() =~= expected);
    SyscallRequest { namespace: SyscallNamespace::Session, operation: owned("get"), params }
}

/// The `close` call of the session namespace.
pub fn session_close_request(session_id: &str) -> (r: SyscallRequest)
    ensures
        request_is(r, SyscallNamespace::Session, "close"@, seq![("session_id"@, Json::Str(session_id@))]),
{
    let ghost expected = seq![("session_id"@, Json::Str(session_id@))];
    let mut entries: Vec<(String, JsonValue)> = Vec::new();
    entries.push((owned("session_id"), text(session_id)));
    let params = JsonMap { entries };
    assert(params.model() =~= expected);
    SyscallRequest { namespace: SyscallNamespace::Session, operation: owned("close"), params }
}

/// The `list` call of the session namespace.
pub fn session_list_request() -> (r: SyscallRequest)
    ensures
        request_is(r, SyscallNamespace::Session, "list"@, Seq::<(Seq<char>, Json)>::empty()),
{
    let ghost expected = Seq::<(Seq<char>, Json)>::empty();
    let mut entries: Vec<(String, JsonValue)> = Vec::new();
    let params = JsonMap { entries };
    assert(params.model() =~= expected);
    SyscallRequest { namespace: SyscallNamespace::Session, operation: owned("list"), params }
}

/// The `set_context` call of the session namespace.
pub fn session_set_context_request(session_id: &str, key: &str, value: &str) -> (r: SyscallRequest)
    ensures
        request_is(r, SyscallNamespace::Session, "set_context"@, seq![("session_id"@, Json::Str(session_id@)), ("key"@, Json::Str(key@)), ("value"@, Json::Str(value@))]),
{
    let ghost expected = seq![("session_id"@, Json::Str(session_id@)), ("key"@, Json::Str(key@)), ("value"@, Json::Str(value@))];
    let mut entries: Vec<(String, JsonValue)> = Vec::new();
    entries.push((owned("session_id"), text(session_id)));
    entries.push((owned("key"), text(key)));
    entries.push((owned("value"), text(value)));
    let params = JsonMap { entries };
    assert(params.model() =~= expected);
    SyscallRequest { namespace: SyscallNamespace::Session, operation: owned("set_context"), params }
}

/// The `get_context` call of the session namespace.
pub fn session_get_context_request(session_id: &str, key: &str) -> (r: SyscallRequest)
    ensures
        request_is(r, SyscallNamespace::Session, "get_context"@, seq![("session_id"@, Json::Str(session_id@)), ("key"@, Json::Str(key@))]),
{
    let ghost expected = seq![("session_id"@, Json::Str(session_id@)), ("key"@, Json::Str(key@))];
    let mut entries: Vec<(String, JsonValue)> = Vec::new();
    entries.push((owned("session_id"), text(session_id)));
    entries.push((owned("key"), text(key)));
    let params = JsonMap { entries };
    assert(params.model() =~= expected);
    SyscallRequest { namespace: SyscallNamespace::Session, operation: owned("get_context"), params }
}

/// The session system calls, made through a binding.
pub struct SessionSyscall<B: SyscallBinding> {
    binding: B,
}

impl<B: SyscallBinding> SessionSyscall<B> {
    /// The binding the calls go through.
    pub closed spec fn binding(&self) -> B {
        self.binding
    }

    /// The session system calls over this binding.
    pub fn new(binding: B) -> (r: Self)
        ensures
            r.binding() == binding,
    {
        SessionSyscall { binding }
    }


    /// Makes the `create` call through the binding.
    pub fn create(&self) -> (r: Result<SyscallResponse, AgentOSError>)
        ensures
            answered(self.binding(), SyscallNamespace::Session, "create"@, Seq::<(Seq<char>, Json)>::empty(), r),
    {
        let request = session_create_request();
        let ghost sent = request;
        let r = self.binding.invoke(request);
        assert(self.binding().answers(sent, r));
        r
    }


    /// Makes the `get` call through the binding.
    pub fn get(&self, session_id: &str) -> (r: Result<SyscallResponse, AgentOSError>)
        ensures
            answered(self.binding(), SyscallNamespace::Session, "get"@, seq![("session_id"@, Json::Str(session_id@))], r),
    {
        let request = session_get_request(session_id);
        let ghost sent = request;
        let r = self.binding.invoke(request);
        assert(self.binding().answers(sent, r));
        r
    }


    /// Makes the `close` call through the binding.
    pub fn close(&self, session_id: &str) -> (r: Result<SyscallResponse, AgentOSError>)
        ensures
            answered(self.binding(), SyscallNamespace::Session, "close"@, seq![("session_id"@, Json::Str(session_id@))], r),
    {
        let request = session_close_request(session_id);
        let ghost sent = request;
        let r = self.binding.invoke(request);
        assert(self.binding().answers(sent, r));
        r
    }


    /// Makes the `list` call through the binding.
    pub fn list(&self) -> (r: Result<SyscallResponse, AgentOSError>)
        ensures
            answered(self.binding(), SyscallNamespace::Session, "list"@, Seq::<(Seq<char>, Json)>::empty(), r),
    {
        let request = session_list_request();
        let ghost sent = request;
        let r = self.binding.invoke(request);
        assert(self.binding().answers(sent, r));
        r
    }


    /// Makes the `set_context` call through the binding.
    pub fn set_context(&self, session_id: &str, key: &str, value: &str) -> (r: Result<SyscallResponse, AgentOSError>)
        ensures
            answered(self.binding(), SyscallNamespace::Session, "set_context"@, seq![("session_id"@, Json::Str(session_id@)), ("key"@, Json::Str(key@)), ("value"@, Json::Str(value@))], r),
    {
        let request = session_set_context_request(session_id, key, value);
        let ghost sent = request;
        let r = self.binding.invoke(request);
        assert(self.binding().answers(sent, r));
        r
    }


    /// Makes the `get_context` call through the binding.
    pub fn get_context(&self, session_id: &str, key: &str) -> (r: Result<SyscallResponse, AgentOSError>)
        ensures
            answered(self.binding(), SyscallNamespace::Session, "get_context"@, seq![("session_id"@, Json::Str(session_id@)), ("key"@, Json::Str(key@))], r),
    {
        let request = session_get_context_request(session_id, key);
        let ghost sent = request;
        let r = self.binding.invoke(request);
        assert(self.binding().answers(sent, r));
        r
    }

}

/// The `load` call of the skill namespace.
pub fn skill_load_request(skill_name: &str) -> (r: SyscallRequest)
    ensures
        request_is(r, SyscallNamespace::Skill, "load"@, seq![("skill_name"@, Json::Str(skill_name@))]),
{
    let ghost expected = seq![("skill_name"@, Json::Str(skill_name@))];
    let mut entries: Vec<(String, JsonValue)> = Vec::new();
    entries.push((owned("skill_name"), text(skill_name)));
    let params = JsonMap { entries };
    assert(params.model() =~= expected);
    SyscallRequest { namespace: SyscallNamespace::Skill, operation: owned("load"), params }
}

/// The `execute` call of the skill namespace.
pub fn skill_execute_request(skill_id: &str, params: JsonValue) -> (r: SyscallRequest)
    ensures
        request_is(r, SyscallNamespace::Skill, "execute"@, seq![("skill_id"@, Json::Str(skill_id@)), ("params"@, params.model())]),
{
    let ghost expected = seq![("skill_id"@, Json::Str(skill_id@)), ("params"@, params.model())];
    let mut entries: Vec<(String, JsonValue)> = Vec::new();
    entries.push((owned("skill_id"), text(skill_id)));
    entries.push((owned("params"), params));
    let params = JsonMap { entries };
    assert(params.model() =~= expected);
    SyscallRequest { namespace: SyscallNamespace::Skill, operation: owned("execute"), params }
}

/// The `unload` call of the skill namespace.
pub fn skill_unload_request(skill_id: &str) -> (r: SyscallRequest)
    ensures
        request_is(r, SyscallNamespace::Skill, "unload"@, seq![("skill_id"@, Json::Str(skill_id@))]),
{
    let ghost expected = seq![("skill_id"@, Json::Str(skill_id@))];
    let mut entries: Vec<(String, JsonValue)> = Vec::new();
    entries.push((owned("skill_id"), text(skill_id)));
    let params = JsonMap { entries };
    assert(params.model() =~= expected);
    SyscallRequest { namespace: SyscallNamespace::Skill, operation: owned("unload"), params }
}

/// The `list` call of the skill namespace.
pub fn skill_list_request() -> (r: SyscallRequest)
    ensures
        request_is(r, SyscallNamespace::Skill, "list"@, Seq::<(Seq<char>, Json)>::empty()),
{
    let ghost expected = Seq::<(Seq<char>, Json)>::empty();
    let mut entries: Vec<(String, JsonValue)> = Vec::new();
    let params = JsonMap { entries };
    assert(params.model() =~= expected);
    SyscallRequest { namespace: SyscallNamespace::Skill, operation: owned("list"), params }
}

/// The skill system calls, made through a binding.
pub struct SkillSyscall<B: SyscallBinding> {
    binding: B,
}

impl<B: SyscallBinding> SkillSyscall<B> {
    /// The binding the calls go through.
    pub closed spec fn binding(&self) -> B {
        self.binding
    }

    /// The skill system calls over this binding.
    pub fn new(binding: B) -> (r: Self)
        ensures
            r.binding() == binding,
    {
        SkillSyscall { binding }
    }


    /// Makes the `load` call through the binding.
    pub fn load(&self, skill_name: &str) -> (r: Result<SyscallResponse, AgentOSError>)
        ensures
            answered(self.binding(), SyscallNamespace::Skill, "load"@, seq![("skill_name"@, Json::Str(skill_name@))], r),
    {
        let request = skill_load_request(skill_name);
        let ghost sent = request;
        let r = self.binding.invoke(request);
        assert(self.binding().answers(sent, r));
        r
    }


    /// Makes the `execute` call through the binding.
    pub fn execute(&self, skill_id: &str, params: JsonValue) -> (r: Result<SyscallResponse, AgentOSError>)
        ensures
            answered(self.binding(), SyscallNamespace::Skill, "execute"@, seq![("skill_id"@, Json::Str(skill_id@)), ("params"@, params.model())], r),
    {
        let request = skill_execute_request(skill_id, params);
        let ghost sent = request;
        let r = self.binding.invoke(request);
        assert(self.binding().answers(sent, r));
        r
    }


    /// Makes the `unload` call through the binding.
    pub fn unload(&self, skill_id: &str) -> (r: Result<SyscallResponse, AgentOSError>)
        ensures
            answered(self.binding(), SyscallNamespace::Skill, "unload"@, seq![("skill_id"@, Json::Str(skill_id@))], r),
    {
        let request = skill_unload_request(skill_id);
        let ghost sent = request;
        let r = self.binding.invoke(request);
        assert(self.binding().answers(sent, r));
        r
    }


    /// Makes the `list` call through the binding.
    pub fn list(&self) -> (r: Result<SyscallResponse, AgentOSError>)
        ensures
            answered(self.binding(), SyscallNamespace::Skill, "list"@, Seq::<(Seq<char>, Json)>::empty(), r),
    {
        let request = skill_list_request();
        let ghost sent = request;
        let r = self.binding.invoke(request);
        assert(self.binding().answers(sent, r));
        r
    }

}

/// The `spawn` call of the agent namespace.
pub fn agent_spawn_request(spec: JsonValue) -> (r: SyscallRequest)
    ensures
        request_is(r, SyscallNamespace::Agent, "spawn"@, seq![("spec"@, spec.model())]),
{
    let ghost expected = seq![("spec"@, spec.model())];
    let mut entries: Vec<(String, JsonValue)> = Vec::new();
    entries.push((owned("spec"), spec));
    let params = JsonMap { entries };
    assert(params.model() =~= expected);
    SyscallRequest { namespace: SyscallNamespace::Agent, operation: owned("spawn"), params }
}

/// The `terminate` call of the agent namespace.
pub fn agent_terminate_request(agent_id: &str) -> (r: SyscallRequest)
    ensures
        request_is(r, SyscallNamespace::Agent, "terminate"@, seq![("agent_id"@, Json::Str(agent_id@))]),
{
    let ghost expected = seq![("agent_id"@, Json::Str(agent_id@))];
    let mut entries: Vec<(String, JsonValue)> = Vec::new();
    entries.push((owned("agent_id"), text(agent_id)));
    let params = JsonMap { entries };
    assert(params.model() =~= expected);
    SyscallRequest { namespace: SyscallNamespace::Agent, operation: owned("terminate"), params }
}

/// The `invoke` call of the agent namespace.
pub fn agent_invoke_request(agent_id: &str, method: &str, args: JsonValue) -> (r: SyscallRequest)
    ensures
        request_is(r, SyscallNamespace::Agent, "invoke"@, seq![("agent_id"@, Json::Str(agent_id@)), ("method"@, Json::Str(method@)), ("args"@, args.model())]),
{
    let ghost expected = seq![("agent_id"@, Json::Str(agent_id@)), ("method"@, Json::Str(method@)), ("args"@, args.model())];
    let mut entries: Vec<(String, JsonValue)> = Vec::new();
    entries.push((owned("agent_id"), text(agent_id)));
    entries.push((owned("method"), text(method)));
    entries.push((owned("args"), args));
    let params = JsonMap { entries };
    assert(params.model() =~= expected);
    SyscallRequest { namespace: SyscallNamespace::Agent, operation: owned("invoke"), params }
}

/// The agent system calls, made through a binding.
pub struct AgentSyscall<B: SyscallBinding> {
    binding: B,
}

impl<B: SyscallBinding> AgentSyscall<B> {
    /// The binding the calls go through.
    pub closed spec fn binding(&self) -> B {
        self.binding
    }

    /// The agent system calls over this binding.
    pub fn new(binding: B) -> (r: Self)
        ensures
            r.binding() == binding,
    {
        AgentSyscall { binding }
    }


    /// Makes the `spawn` call through the binding.
    pub fn spawn(&self, spec: JsonValue) -> (r: Result<SyscallResponse, AgentOSError>)
        ensures
            answered(self.binding(), SyscallNamespace::Agent, "spawn"@, seq![("spec"@, spec.model())], r),
    {
        let request = agent_spawn_request(spec);
        let ghost sent = request;
        let r = self.binding.invoke(request);
        assert(self.binding().answers(sent, r));
        r
    }


    /// Makes the `terminate` call through the binding.
    pub fn terminate(&self, agent_id: &str) -> (r: Result<SyscallResponse, AgentOSError>)
        ensures
            answered(self.binding(), SyscallNamespace::Agent, "terminate"@, seq![("agent_id"@, Json::Str(agent_id@))], r),
    {
        let request = agent_terminate_request(agent_id);
        let ghost sent = request;
        let r = self.binding.invoke(request);
        assert(self.binding().answers(sent, r));
        r
    }


    /// Makes the `invoke` call through the binding.
    pub fn invoke(&self, agent_id: &str, method: &str, args: JsonValue) -> (r: Result<SyscallResponse, AgentOSError>)
        ensures
            answered(self.binding(), SyscallNamespace::Agent, "invoke"@, seq![("agent_id"@, Json::Str(agent_id@)), ("method"@, Json::Str(method@)), ("args"@, args.model())], r),
    {
        let request = agent_invoke_request(agent_id, method, args);
        let ghost sent = request;
        let r = self.binding.invoke(request);
        assert(self.binding().answers(sent, r));
        r
    }

}

} // verus!
