//! The skill manager's requests and readings.

use vstd::prelude::*;
use crate::client::{ApiRequest, HttpMethod};
use crate::error::AgentOSError;
use crate::json::{Json, JsonMap, JsonValue, lookup};
use crate::modules::{
    data_object, invalid_response_with, item_path, list_path, list_path_spec, missing, missing_parameter,
    object_elements, objects_at, opt_object_model, read_count,
};
use crate::text::{concat2, owned, opt_string_view};
use crate::types::{APIResponse, ListOptions, Skill, SkillInfo, SkillResult, SkillStatus};
use crate::utils::{
    array_field, bool_field, get_bool, get_map, get_nonempty_string, get_string, i64_field, nonempty_string_field,
    object_field, string_field,
};

verus! {

broadcast use {vstd::std_specs::vec::group_vec_axioms, vstd::string::group_string_axioms};

/// The collection path of skills.
pub const SKILLS_PATH: &'static str = "/api/v1/skills";

/// The status named by a text, or active when it names none.
pub open spec fn status_or_active(s: Seq<char>) -> SkillStatus {
    match SkillStatus::parse(s) {
        Some(t) => t,
        None => SkillStatus::Active,
    }
}

/// `x` is the skill read from the object `m`.
pub open spec fn skill_read_from(x: Skill, m: Seq<(Seq<char>, Json)>) -> bool {
    &&& x.id@ == string_field(m, "skill_id"@)
    &&& x.name@ == string_field(m, "name"@)
    &&& opt_string_view(x.version) == nonempty_string_field(m, "version"@)
    &&& opt_string_view(x.description) == nonempty_string_field(m, "description"@)
    &&& x.status == status_or_active(string_field(m, "status"@))
    &&& x.parameters.model() == object_field(m, "parameters"@)
    &&& x.metadata.model() == object_field(m, "metadata"@)
    &&& x.created_at@ == string_field(m, "created_at"@)
}

/// Reads a skill from an object.
pub fn parse_skill_from_map(data: &JsonMap) -> (r: Skill)
    ensures
        skill_read_from(r, data.model()),
{
    let status_text = get_string(data, "status");
    let status = match SkillStatus::from_str(status_text.as_str()) {
        Some(s) => s,
        None => SkillStatus::Active,
    };
    Skill {
        id: get_string(data, "skill_id"),
        name: get_string(data, "name"),
        version: get_nonempty_string(data, "version"),
        description: get_nonempty_string(data, "description"),
        status,
        parameters: get_map(data, "parameters"),
        metadata: get_map(data, "metadata"),
        created_at: get_string(data, "created_at"),
    }
}

/// `x` is the information about the named skill read from the object `m`.
pub open spec fn skill_info_read_from(x: SkillInfo, m: Seq<(Seq<char>, Json)>, name: Seq<char>) -> bool {
    &&& x.name@ == name
    &&& opt_string_view(x.description) == nonempty_string_field(m, "description"@)
    &&& opt_string_view(x.version) == nonempty_string_field(m, "version"@)
    &&& x.parameters.model() == object_field(m, "parameters"@)
}

/// Reads the information about the named skill from an object.
pub fn parse_skill_info_from_map(data: &JsonMap, skill_name: &str) -> (r: SkillInfo)
    ensures
        skill_info_read_from(r, data.model(), skill_name@),
{
    SkillInfo {
        name: owned(skill_name),
        description: get_nonempty_string(data, "description"),
        version: get_nonempty_string(data, "version"),
        parameters: get_map(data, "parameters"),
    }
}

/// Reads the skill in a response's data object.
pub fn parse_skill_response(resp: &APIResponse) -> (r: Result<Skill, AgentOSError>)
    ensures
        match resp.data.model() {
            Json::Object(m) => r matches Ok(x) && skill_read_from(x, m),
            _ => r matches Err(e) && invalid_response_with(e, "技能详情响应格式异常"@),
        },
{
    match data_object(resp, "技能详情响应格式异常") {
        Ok(m) => Ok(parse_skill_from_map(&m)),
        Err(e) => Err(e),
    }
}

/// Reads the information about a loaded skill in a response.
pub fn parse_load_response(resp: &APIResponse, skill_name: &str) -> (r: Result<SkillInfo, AgentOSError>)
    ensures
        match resp.data.model() {
            Json::Object(m) => r matches Ok(x) && skill_info_read_from(x, m, skill_name@),
            _ => r matches Err(e) && invalid_response_with(e, "技能加载响应格式异常"@),
        },
{
    match data_object(resp, "技能加载响应格式异常") {
        Ok(m) => Ok(parse_skill_info_from_map(&m, skill_name)),
        Err(e) => Err(e),
    }
}

/// Reads the outcome of running a skill: `success` (false when absent), the
/// `output` as it is, and the `error` when it is a string.
pub fn parse_execute_response(resp: &APIResponse) -> (r: Result<SkillResult, AgentOSError>)
    ensures
        match resp.data.model() {
            Json::Object(m) => r matches Ok(x) && x.success == bool_field(m, "success"@) && match lookup(m, "output"@) {
                Some(v) => x.output matches Some(o) && o.model() == v,
                None => x.output is None,
            } && match lookup(m, "error"@) {
                Some(Json::Str(s)) => x.error matches Some(e) && e@ == s,
                _ => x.error is None,
            },
            _ => r matches Err(e) && invalid_response_with(e, "技能执行响应格式异常"@),
        },
{
    let data = match data_object(resp, "技能执行响应格式异常") {
        Ok(m) => m,
        Err(e) => {
            return Err(e);
        },
    };
    let output = match data.get("output") {
        Some(v) => Some(v.deep_clone()),
        None => None,
    };
    let error = match data.get("error") {
        Some(v) => match v.as_str() {
            Some(s) => Some(owned(s)),
            None => None,
        },
        None => None,
    };
    Ok(SkillResult { success: get_bool(&data, "success"), output, error })
}

/// Reads the skills listed in a response: each object of the `skills`
/// array of the data object, in order.
pub fn parse_skill_list(resp: &APIResponse) -> (r: Result<Vec<Skill>, AgentOSError>)
    ensures
        match resp.data.model() {
            Json::Object(m) => r matches Ok(v) && v@.len() == object_elements(array_field(m, "skills"@)).len()
                && forall|i: int| 0 <= i < v@.len() ==> skill_read_from(#[trigger] v@[i], object_elements(array_field(m, "skills"@))[i]),
            _ => r matches Err(e) && invalid_response_with(e, "技能列表响应格式异常"@),
        },
{
    let data = match data_object(resp, "技能列表响应格式异常") {
        Ok(m) => m,
        Err(e) => {
            return Err(e);
        },
    };
    let objects = objects_at(&data, "skills");
    let ghost objs = objects@.map_values(|m: JsonMap| m.model());
    let mut out: Vec<Skill> = Vec::new();
    let mut i: usize = 0;
    while i < objects.len()
        invariant
            i <= objects.len(),
            objs == objects@.map_values(|m: JsonMap| m.model()),
            out@.len() == i,
            forall|j: int| 0 <= j < i ==> skill_read_from(#[trigger] out@[j], objs[j]),
        decreases objects.len() - i,
    {
        out.push(parse_skill_from_map(&objects[i]));
        i = i + 1;
    }
    Ok(out)
}

/// Reads the skill count of a response.
pub fn parse_count(resp: &APIResponse) -> (r: Result<i64, AgentOSError>)
    ensures
        match resp.data.model() {
            Json::Object(m) => r == Ok::<i64, AgentOSError>(i64_field(m, "count"@)),
            _ => r matches Err(e) && invalid_response_with(e, "技能计数响应格式异常"@),
        },
{
    read_count(resp, "技能计数响应格式异常")
}

/// A request about one skill; an empty name is a missing parameter.
pub open spec fn skill_request_ok(
    r: Result<ApiRequest, AgentOSError>,
    name: Seq<char>,
    method: HttpMethod,
    suffix: Seq<char>,
    body: Option<Json>,
) -> bool {
    &&& name.len() == 0 ==> (r matches Err(e) && missing_parameter(e, "技能名称不能为空"@))
    &&& name.len() > 0 ==> (r matches Ok(q) && q.method == method && q.path@ == SKILLS_PATH@ + "/"@ + name + suffix
        && match body {
        Some(b) => q.body matches Some(x) && x.model() == b,
        None => q.body is None,
    })
}

/// The request that loads (reads) a skill; the same request reads its
/// details.
pub fn load_request(skill_name: &str) -> (r: Result<ApiRequest, AgentOSError>)
    ensures
        skill_request_ok(r, skill_name@, HttpMethod::Get, Seq::empty(), None),
{
    if skill_name.is_empty() {
        return Err(missing("技能名称不能为空"));
    }
    let path = item_path(SKILLS_PATH, skill_name);
    assert(path@ + Seq::<char>::empty() =~= path@);
    Ok(ApiRequest { method: HttpMethod::Get, path, body: None })
}

/// The request that unloads a skill.
pub fn unload_request(skill_name: &str) -> (r: Result<ApiRequest, AgentOSError>)
    ensures
        skill_request_ok(r, skill_name@, HttpMethod::Delete, Seq::empty(), None),
{
    if skill_name.is_empty() {
        return Err(missing("技能名称不能为空"));
    }
    let path = item_path(SKILLS_PATH, skill_name);
    assert(path@ + Seq::<char>::empty() =~= path@);
    Ok(ApiRequest { method: HttpMethod::Delete, path, body: None })
}

/// The body that runs a skill: its parameters, none when not given.
pub open spec fn execute_body(parameters: Option<Seq<(Seq<char>, Json)>>) -> Json {
    Json::Object(seq![("parameters"@, Json::Object(match parameters {
        Some(p) => p,
        None => Seq::empty(),
    }))])
}

/// The request that runs a skill with parameters.
pub fn execute_request(skill_name: &str, parameters: Option<JsonMap>) -> (r: Result<ApiRequest, AgentOSError>)
    ensures
        skill_request_ok(r, skill_name@, HttpMethod::Post, "/execute"@, Some(execute_body(opt_object_model(parameters)))),
{
    if skill_name.is_empty() {
        return Err(missing("技能名称不能为空"));
    }
    let ghost pm = opt_object_model(parameters);
    let params = match parameters {
        Some(p) => p,
        None => JsonMap::new(),
    };
    let ghost inner = params.model();
    let mut entries: Vec<(String, JsonValue)> = Vec::new();
    entries.push((owned("parameters"), JsonValue::Object(params)));
    let map = JsonMap { entries };
    assert(map.model() =~= seq![("parameters"@, Json::Object(inner))]);
    assert(JsonValue::Object(map).model() == execute_body(pm));
    let base = item_path(SKILLS_PATH, skill_name);
    Ok(ApiRequest {
        method: HttpMethod::Post,
        path: concat2(base.as_str(), "/execute"),
        body: Some(JsonValue::Object(map)),
    })
}

/// The request that lists skills.
pub fn list_request(opts: Option<&ListOptions>) -> (r: ApiRequest)
    ensures
        r.method == HttpMethod::Get,
        r.path@ == list_path_spec(SKILLS_PATH@, match opts {
            Some(o) => Some(*o),
            None => None,
        }),
        r.body is None,
{
    ApiRequest { method: HttpMethod::Get, path: list_path(SKILLS_PATH, opts), body: None }
}

/// The request that counts loaded skills.
pub fn count_request() -> (r: ApiRequest)
    ensures
        r.method == HttpMethod::Get,
        r.path@ == "/api/v1/skills/count"@,
        r.body is None,
{
    ApiRequest { method: HttpMethod::Get, path: owned("/api/v1/skills/count"), body: None }
}

} // verus!
