//! The session manager's requests and readings.

use vstd::prelude::*;
use crate::client::{ApiRequest, HttpMethod};
use crate::error::AgentOSError;
use crate::json::{Json, JsonMap, JsonValue, lookup};
use crate::modules::{
    data_object, invalid_response_with, item_path, list_path, list_path_spec, missing, missing_parameter,
    object_elements, objects_at, read_count,
};
use crate::text::{concat2, concat3, owned, opt_string_view};
use crate::types::{APIResponse, ListOptions, Session, SessionStatus};
use crate::utils::{
    array_field, get_map, get_nonempty_string, get_string, i64_field, nonempty_string_field, object_field,
    string_field,
};

verus! {

broadcast use {vstd::std_specs::vec::group_vec_axioms, vstd::string::group_string_axioms};

/// The collection path of sessions.
pub const SESSIONS_PATH: &'static str = "/api/v1/sessions";

/// The status named by a text, or active when it names none.
pub open spec fn status_or_active(s: Seq<char>) -> SessionStatus {
    match SessionStatus::parse(s) {
        Some(t) => t,
        None => SessionStatus::Active,
    }
}

/// `x` is the session read from the object `m`.
pub open spec fn session_read_from(x: Session, m: Seq<(Seq<char>, Json)>) -> bool {
    &&& x.id@ == string_field(m, "session_id"@)
    &&& opt_string_view(x.user_id) == nonempty_string_field(m, "user_id"@)
    &&& x.status == status_or_active(string_field(m, "status"@))
    &&& x.context.model() == object_field(m, "context"@)
    &&& x.metadata.model() == object_field(m, "metadata"@)
    &&& x.created_at@ == string_field(m, "created_at"@)
    &&& x.last_activity@ == string_field(m, "last_activity"@)
}

/// Reads a session from an object.
pub fn parse_session_from_map(data: &JsonMap) -> (r: Session)
    ensures
        session_read_from(r, data.model()),
{
    let status_text = get_string(data, "status");
    let status = match SessionStatus::from_str(status_text.as_str()) {
        Some(s) => s,
        None => SessionStatus::Active,
    };
    Session {
        id: get_string(data, "session_id"),
        user_id: get_nonempty_string(data, "user_id"),
        status,
        context: get_map(data, "context"),
        metadata: get_map(data, "metadata"),
        created_at: get_string(data, "created_at"),
        last_activity: get_string(data, "last_activity"),
    }
}

/// Reads the session in a response's data object.
pub fn parse_session_response(resp: &APIResponse, message: &str) -> (r: Result<Session, AgentOSError>)
    ensures
        match resp.data.model() {
            Json::Object(m) => r matches Ok(x) && session_read_from(x, m),
            _ => r matches Err(e) && invalid_response_with(e, message@),
        },
{
    match data_object(resp, message) {
        Ok(m) => Ok(parse_session_from_map(&m)),
        Err(e) => Err(e),
    }
}

/// Reads the sessions listed in a response: each object of the `sessions`
/// array of the data object, in order.
pub fn parse_session_list(resp: &APIResponse) -> (r: Result<Vec<Session>, AgentOSError>)
    ensures
        match resp.data.model() {
            Json::Object(m) => r matches Ok(v) && v@.len() == object_elements(array_field(m, "sessions"@)).len()
                && forall|i: int| 0 <= i < v@.len() ==> session_read_from(#[trigger] v@[i], object_elements(array_field(m, "sessions"@))[i]),
            _ => r matches Err(e) && invalid_response_with(e, "会话列表响应格式异常"@),
        },
{
    let data = match data_object(resp, "会话列表响应格式异常") {
        Ok(m) => m,
        Err(e) => {
            return Err(e);
        },
    };
    let objects = objects_at(&data, "sessions");
    let ghost objs = objects@.map_values(|m: JsonMap| m.model());
    let mut out: Vec<Session> = Vec::new();
    let mut i: usize = 0;
    while i < objects.len()
        invariant
            i <= objects.len(),
            objs == objects@.map_values(|m: JsonMap| m.model()),
            out@.len() == i,
            forall|j: int| 0 <= j < i ==> session_read_from(#[trigger] out@[j], objs[j]),
        decreases objects.len() - i,
    {
        out.push(parse_session_from_map(&objects[i]));
        i = i + 1;
    }
    Ok(out)
}

/// Reads a context value: the `value` of the data object, which must be
/// there.
pub fn parse_context_value(resp: &APIResponse) -> (r: Result<JsonValue, AgentOSError>)
    ensures
        match resp.data.model() {
            Json::Object(m) => match lookup(m, "value"@) {
                Some(v) => r matches Ok(x) && x.model() == v,
                None => r matches Err(e) && invalid_response_with(e, "缺少 value 字段"@),
            },
            _ => r matches Err(e) && invalid_response_with(e, "上下文响应格式异常"@),
        },
{
    let data = match data_object(resp, "上下文响应格式异常") {
        Ok(m) => m,
        Err(e) => {
            return Err(e);
        },
    };
    match data.get("value") {
        Some(v) => Ok(v.deep_clone()),
        None => Err(AgentOSError::invalid_response("缺少 value 字段")),
    }
}

/// Reads the count of active sessions of a response.
pub fn parse_count(resp: &APIResponse) -> (r: Result<i64, AgentOSError>)
    ensures
        match resp.data.model() {
            Json::Object(m) => r == Ok::<i64, AgentOSError>(i64_field(m, "count"@)),
            _ => r matches Err(e) && invalid_response_with(e, "会话计数响应格式异常"@),
        },
{
    read_count(resp, "会话计数响应格式异常")
}

/// The request that creates a session.
pub fn create_request() -> (r: ApiRequest)
    ensures
        r.method == HttpMethod::Post,
        r.path@ == SESSIONS_PATH@,
        r.body is None,
{
    ApiRequest { method: HttpMethod::Post, path: owned(SESSIONS_PATH), body: None }
}

/// The request that creates a session for a user.
pub fn create_with_user_request(user_id: &str) -> (r: ApiRequest)
    ensures
        r.method == HttpMethod::Post,
        r.path@ == SESSIONS_PATH@,
        r.body matches Some(b) && b.model() == Json::Object(seq![("user_id"@, Json::Str(user_id@))]),
{
    let mut entries: Vec<(String, JsonValue)> = Vec::new();
    entries.push((owned("user_id"), JsonValue::String(owned(user_id))));
    let map = JsonMap { entries };
    assert(map.model() =~= seq![("user_id"@, Json::Str(user_id@))]);
    ApiRequest { method: HttpMethod::Post, path: owned(SESSIONS_PATH), body: Some(JsonValue::Object(map)) }
}

/// A request about one session; an empty id is a missing parameter.
pub open spec fn session_request_ok(
    r: Result<ApiRequest, AgentOSError>,
    id: Seq<char>,
    method: HttpMethod,
    suffix: Seq<char>,
    body: Option<Json>,
) -> bool {
    &&& id.len() == 0 ==> (r matches Err(e) && missing_parameter(e, "会话ID不能为空"@))
    &&& id.len() > 0 ==> (r matches Ok(q) && q.method == method && q.path@ == SESSIONS_PATH@ + "/"@ + id + suffix
        && match body {
        Some(b) => q.body matches Some(x) && x.model() == b,
        None => q.body is None,
    })
}

/// The request that reads one session.
pub fn get_request(session_id: &str) -> (r: Result<ApiRequest, AgentOSError>)
    ensures
        session_request_ok(r, session_id@, HttpMethod::Get, Seq::empty(), None),
{
    if session_id.is_empty() {
        return Err(missing("会话ID不能为空"));
    }
    let path = item_path(SESSIONS_PATH, session_id);
    assert(path@ + Seq::<char>::empty() =~= path@);
    Ok(ApiRequest { method: HttpMethod::Get, path, body: None })
}

/// The request that closes a session.
pub fn close_request(session_id: &str) -> (r: Result<ApiRequest, AgentOSError>)
    ensures
        session_request_ok(r, session_id@, HttpMethod::Delete, Seq::empty(), None),
{
    if session_id.is_empty() {
        return Err(missing("会话ID不能为空"));
    }
    let path = item_path(SESSIONS_PATH, session_id);
    assert(path@ + Seq::<char>::empty() =~= path@);
    Ok(ApiRequest { method: HttpMethod::Delete, path, body: None })
}

/// The body that sets a context value.
pub open spec fn context_body(key: Seq<char>, value: Json) -> Json {
    Json::Object(seq![("key"@, Json::Str(key)), ("value"@, value)])
}

/// The request that sets a context value of a session.
pub fn set_context_request(session_id: &str, key: &str, value: JsonValue) -> (r: Result<ApiRequest, AgentOSError>)
    ensures
        session_request_ok(r, session_id@, HttpMethod::Post, "/context"@, Some(context_body(key@, value.model()))),
{
    if session_id.is_empty() {
        return Err(missing("会话ID不能为空"));
    }
    let ghost vm = value.model();
    let mut entries: Vec<(String, JsonValue)> = Vec::new();
    entries.push((owned("key"), JsonValue::String(owned(key))));
    entries.push((owned("value"), value));
    let map = JsonMap { entries };
    assert(map.model() =~= seq![("key"@, Json::Str(key@)), ("value"@, vm)]);
    let base = item_path(SESSIONS_PATH, session_id);
    Ok(ApiRequest {
        method: HttpMethod::Post,
        path: concat2(base.as_str(), "/context"),
        body: Some(JsonValue::Object(map)),
    })
}

/// The request that reads a context value of a session.
pub fn get_context_request(session_id: &str, key: &str) -> (r: Result<ApiRequest, AgentOSError>)
    ensures
        session_request_ok(r, session_id@, HttpMethod::Get, "/context/"@ + key@, None),
{
    if session_id.is_empty() {
        return Err(missing("会话ID不能为空"));
    }
    let base = item_path(SESSIONS_PATH, session_id);
    let path = concat3(base.as_str(), "/context/", key);
    assert(path@ =~= SESSIONS_PATH@ + "/"@ + session_id@ + ("/context/"@ + key@));
    Ok(ApiRequest { method: HttpMethod::Get, path, body: None })
}

/// The request that deletes a context value of a session.
pub fn delete_context_request(session_id: &str, key: &str) -> (r: Result<ApiRequest, AgentOSError>)
    ensures
        session_request_ok(r, session_id@, HttpMethod::Delete, "/context/"@ + key@, None),
{
    if session_id.is_empty() {
        return Err(missing("会话ID不能为空"));
    }
    let base = item_path(SESSIONS_PATH, session_id);
    let path = concat3(base.as_str(), "/context/", key);
    assert(path@ =~= SESSIONS_PATH@ + "/"@ + session_id@ + ("/context/"@ + key@));
    Ok(ApiRequest { method: HttpMethod::Delete, path, body: None })
}

/// The request that lists sessions.
pub fn list_request(opts: Option<&ListOptions>) -> (r: ApiRequest)
    ensures
        r.method == HttpMethod::Get,
        r.path@ == list_path_spec(SESSIONS_PATH@, match opts {
            Some(o) => Some(*o),
            None => None,
        }),
        r.body is None,
{
    ApiRequest { method: HttpMethod::Get, path: list_path(SESSIONS_PATH, opts), body: None }
}

/// The request that counts active sessions.
pub fn count_request() -> (r: ApiRequest)
    ensures
        r.method == HttpMethod::Get,
        r.path@ == "/api/v1/sessions/count"@,
        r.body is None,
{
    ApiRequest { method: HttpMethod::Get, path: owned("/api/v1/sessions/count"), body: None }
}

} // verus!
