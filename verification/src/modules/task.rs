//! The task manager's requests and readings.

use vstd::prelude::*;
use core::time::Duration;
use crate::client::{ApiRequest, HttpMethod, duration_from_secs, seconds};
use crate::error::{AgentOSError, CODE_INVALID_PARAMETER, CODE_TASK_TIMEOUT};
use crate::json::{Json, JsonMap, JsonValue, NumberModel, i64_number};
use crate::modules::{
    data_object, invalid_response_with, item_path, list_path, list_path_spec, missing, missing_parameter,
    object_elements, objects_at, opt_object_model, read_count,
};
use crate::text::{concat2, concat3, owned, opt_string_view};
use crate::types::{APIResponse, ListOptions, Task, TaskResult, TaskStatus};
use crate::utils::{
    array_field, get_i64, get_map, get_nonempty_string, get_string, i64_field, nonempty_string_field,
    object_field, string_field,
};

verus! {

broadcast use {vstd::std_specs::vec::group_vec_axioms, vstd::string::group_string_axioms};

/// The collection path of tasks.
pub const TASKS_PATH: &'static str = "/api/v1/tasks";

/// The status named by a text, or pending when it names none.
pub open spec fn status_or_pending(s: Seq<char>) -> TaskStatus {
    match TaskStatus::parse(s) {
        Some(t) => t,
        None => TaskStatus::Pending,
    }
}

/// `t` is the task read from the object `m`: its id from `task_id`, its
/// status pending unless `status` names one, its priority the integer at
/// `priority` cut to 32 bits, output and error only when not empty.
pub open spec fn task_read_from(t: Task, m: Seq<(Seq<char>, Json)>) -> bool {
    &&& t.id@ == string_field(m, "task_id"@)
    &&& t.description@ == string_field(m, "description"@)
    &&& t.status == status_or_pending(string_field(m, "status"@))
    &&& t.priority == i64_field(m, "priority"@) as i32
    &&& opt_string_view(t.output) == nonempty_string_field(m, "output"@)
    &&& opt_string_view(t.error) == nonempty_string_field(m, "error"@)
    &&& t.metadata.model() == object_field(m, "metadata"@)
    &&& t.created_at@ == string_field(m, "created_at"@)
    &&& t.updated_at@ == string_field(m, "updated_at"@)
}

/// Reads a task from an object.
pub fn parse_task_from_map(data: &JsonMap) -> (r: Task)
    ensures
        task_read_from(r, data.model()),
{
    let status_text = get_string(data, "status");
    let status = match TaskStatus::from_str(status_text.as_str()) {
        Some(s) => s,
        None => TaskStatus::Pending,
    };
    let priority = get_i64(data, "priority");
    Task {
        id: get_string(data, "task_id"),
        description: get_string(data, "description"),
        status,
        priority: #[verifier::truncate] (priority as i32),
        output: get_nonempty_string(data, "output"),
        error: get_nonempty_string(data, "error"),
        metadata: get_map(data, "metadata"),
        created_at: get_string(data, "created_at"),
        updated_at: get_string(data, "updated_at"),
    }
}

/// Reads the task in a response's data object; an invalid-response error
/// with this message when the data is not an object.
pub fn parse_task_response(resp: &APIResponse, message: &str) -> (r: Result<Task, AgentOSError>)
    ensures
        match resp.data.model() {
            Json::Object(m) => r matches Ok(t) && task_read_from(t, m),
            _ => r matches Err(e) && invalid_response_with(e, message@),
        },
{
    match data_object(resp, message) {
        Ok(m) => Ok(parse_task_from_map(&m)),
        Err(e) => Err(e),
    }
}

/// Reads the tasks listed in a response: each object of the `tasks` array
/// of the data object, in order; other elements are skipped.
pub fn parse_task_list(resp: &APIResponse) -> (r: Result<Vec<Task>, AgentOSError>)
    ensures
        match resp.data.model() {
            Json::Object(m) => r matches Ok(v) && v@.len() == object_elements(array_field(m, "tasks"@)).len()
                && forall|i: int| 0 <= i < v@.len() ==> task_read_from(#[trigger] v@[i], object_elements(array_field(m, "tasks"@))[i]),
            _ => r matches Err(e) && invalid_response_with(e, "任务列表响应格式异常"@),
        },
{
    let data = match data_object(resp, "任务列表响应格式异常") {
        Ok(m) => m,
        Err(e) => {
            return Err(e);
        },
    };
    let objects = objects_at(&data, "tasks");
    let ghost objs = objects@.map_values(|m: JsonMap| m.model());
    let mut tasks: Vec<Task> = Vec::new();
    let mut i: usize = 0;
    while i < objects.len()
        invariant
            i <= objects.len(),
            objs == objects@.map_values(|m: JsonMap| m.model()),
            tasks@.len() == i,
            forall|j: int| 0 <= j < i ==> task_read_from(#[trigger] tasks@[j], objs[j]),
        decreases objects.len() - i,
    {
        tasks.push(parse_task_from_map(&objects[i]));
        i = i + 1;
    }
    Ok(tasks)
}

/// The body of a task submission with a description alone.
pub open spec fn submit_body(description: Seq<char>) -> Json {
    Json::Object(seq![("description"@, Json::Str(description))])
}

/// The request that submits a task; an empty description is a missing
/// parameter.
pub fn submit_request(description: &str) -> (r: Result<ApiRequest, AgentOSError>)
    ensures
        description@.len() == 0 ==> (r matches Err(e) && missing_parameter(e, "任务描述不能为空"@)),
        description@.len() > 0 ==> (r matches Ok(q) && q.method == HttpMethod::Post && q.path@ == TASKS_PATH@
            && (q.body matches Some(b) && b.model() == submit_body(description@))),
{
    if description.is_empty() {
        return Err(missing("任务描述不能为空"));
    }
    let mut entries: Vec<(String, JsonValue)> = Vec::new();
    entries.push((owned("description"), JsonValue::String(owned(description))));
    let body = JsonMap { entries };
    assert(body.model() =~= seq![("description"@, Json::Str(description@))]);
    Ok(ApiRequest { method: HttpMethod::Post, path: owned(TASKS_PATH), body: Some(JsonValue::Object(body)) })
}

/// The body of a task submission with a priority and, when given,
/// metadata.
pub open spec fn submit_with_options_body(
    description: Seq<char>,
    priority: i32,
    metadata: Option<Seq<(Seq<char>, Json)>>,
) -> Json {
    let base = seq![
        ("description"@, Json::Str(description)),
        ("priority"@, Json::Number(i64_number(priority as i64))),
    ];
    Json::Object(
        match metadata {
            Some(m) => base.push(("metadata"@, Json::Object(m))),
            None => base,
        },
    )
}

/// The request that submits a task with a priority and metadata; an empty
/// description is a missing parameter.
pub fn submit_with_options_request(description: &str, priority: i32, metadata: Option<JsonMap>) -> (r: Result<
    ApiRequest,
    AgentOSError,
>)
    ensures
        description@.len() == 0 ==> (r matches Err(e) && missing_parameter(e, "任务描述不能为空"@)),
        description@.len() > 0 ==> (r matches Ok(q) && q.method == HttpMethod::Post && q.path@ == TASKS_PATH@
            && (q.body matches Some(b) && b.model() == submit_with_options_body(description@, priority, opt_object_model(metadata)))),
{
    if description.is_empty() {
        return Err(missing("任务描述不能为空"));
    }
    let ghost meta = opt_object_model(metadata);
    let mut entries: Vec<(String, JsonValue)> = Vec::new();
    entries.push((owned("description"), JsonValue::String(owned(description))));
    entries.push((owned("priority"), JsonValue::from_i64(priority as i64)));
    match metadata {
        Some(m) => {
            entries.push((owned("metadata"), JsonValue::Object(m)));
        },
        None => {},
    }
    let map = JsonMap { entries };
    let ghost base = seq![
        ("description"@, Json::Str(description@)),
        ("priority"@, Json::Number(i64_number(priority as i64))),
    ];
    proof {
        match meta {
            Some(mm) => {
                assert(map.model()[2] == ("metadata"@, Json::Object(mm)));
                assert(map.model() =~= base.push(("metadata"@, Json::Object(mm))));
            },
            None => {
                assert(map.model() =~= base);
            },
        }
    }
    let body = JsonValue::Object(map);
    assert(body.model() == submit_with_options_body(description@, priority, meta));
    Ok(ApiRequest { method: HttpMethod::Post, path: owned(TASKS_PATH), body: Some(body) })
}

/// A request about one task; an empty id is a missing parameter.
pub open spec fn task_request_ok(r: Result<ApiRequest, AgentOSError>, task_id: Seq<char>, method: HttpMethod, suffix: Seq<char>) -> bool {
    &&& task_id.len() == 0 ==> (r matches Err(e) && missing_parameter(e, "任务ID不能为空"@))
    &&& task_id.len() > 0 ==> (r matches Ok(q) && q.method == method && q.path@ == TASKS_PATH@ + "/"@ + task_id + suffix
        && q.body is None)
}

fn task_request(task_id: &str, method: HttpMethod, suffix: &str) -> (r: Result<ApiRequest, AgentOSError>)
    ensures
        task_request_ok(r, task_id@, method, suffix@),
{
    if task_id.is_empty() {
        return Err(missing("任务ID不能为空"));
    }
    let base = item_path(TASKS_PATH, task_id);
    Ok(ApiRequest { method, path: concat2(base.as_str(), suffix), body: None })
}

/// The request that reads one task.
pub fn get_request(task_id: &str) -> (r: Result<ApiRequest, AgentOSError>)
    ensures
        task_request_ok(r, task_id@, HttpMethod::Get, Seq::empty()),
{
    let r = task_request(task_id, HttpMethod::Get, "");
    proof {
        reveal_strlit("");
    }
    assert(TASKS_PATH@ + "/"@ + task_id@ + ""@ =~= TASKS_PATH@ + "/"@ + task_id@ + Seq::<char>::empty());
    r
}

/// The request that cancels a task.
pub fn cancel_request(task_id: &str) -> (r: Result<ApiRequest, AgentOSError>)
    ensures
        task_request_ok(r, task_id@, HttpMethod::Post, "/cancel"@),
{
    task_request(task_id, HttpMethod::Post, "/cancel")
}

/// The request that deletes a task.
pub fn delete_request(task_id: &str) -> (r: Result<ApiRequest, AgentOSError>)
    ensures
        task_request_ok(r, task_id@, HttpMethod::Delete, Seq::empty()),
{
    let r = task_request(task_id, HttpMethod::Delete, "");
    proof {
        reveal_strlit("");
    }
    assert(TASKS_PATH@ + "/"@ + task_id@ + ""@ =~= TASKS_PATH@ + "/"@ + task_id@ + Seq::<char>::empty());
    r
}

/// The request that lists tasks.
pub fn list_request(opts: Option<&ListOptions>) -> (r: ApiRequest)
    ensures
        r.method == HttpMethod::Get,
        r.path@ == list_path_spec(TASKS_PATH@, match opts {
            Some(o) => Some(*o),
            None => None,
        }),
        r.body is None,
{
    ApiRequest { method: HttpMethod::Get, path: list_path(TASKS_PATH, opts), body: None }
}

/// The request that counts tasks.
pub fn count_request() -> (r: ApiRequest)
    ensures
        r.method == HttpMethod::Get,
        r.path@ == "/api/v1/tasks/count"@,
        r.body is None,
{
    ApiRequest { method: HttpMethod::Get, path: owned("/api/v1/tasks/count"), body: None }
}

/// Reads the task count of a response.
pub fn parse_count(resp: &APIResponse) -> (r: Result<i64, AgentOSError>)
    ensures
        match resp.data.model() {
            Json::Object(m) => r == Ok::<i64, AgentOSError>(i64_field(m, "count"@)),
            _ => r matches Err(e) && invalid_response_with(e, "任务计数响应格式异常"@),
        },
{
    read_count(resp, "任务计数响应格式异常")
}

/// The result of a finished task that took `duration`: its id, status,
/// output and error, from its creation to its last update.
pub fn task_result(task: Task, duration: Duration) -> (r: TaskResult)
    ensures
        r.id == task.id,
        r.status == task.status,
        r.output == task.output,
        r.error == task.error,
        r.start_time == task.created_at,
        r.end_time == task.updated_at,
        r.duration == duration,
{
    TaskResult {
        id: task.id,
        status: task.status,
        output: task.output,
        error: task.error,
        start_time: task.created_at,
        end_time: task.updated_at,
        duration,
    }
}

/// The result of a task read as finished: a task that has not reached a
/// terminal status is an invalid parameter; otherwise its result, with no
/// elapsed time.
pub fn get_result_from(task: Task) -> (r: Result<TaskResult, AgentOSError>)
    ensures
        !task.status.terminal() ==> (r matches Err(AgentOSError::WithCode { code, message })
            && code@ == CODE_INVALID_PARAMETER@ && message@ == "任务尚未完成"@),
        task.status.terminal() ==> (r matches Ok(x) && x.id == task.id && x.status == task.status
            && x.output == task.output && x.error == task.error && x.start_time == task.created_at
            && x.end_time == task.updated_at && x.duration == seconds(0)),
{
    if !task.status.is_terminal() {
        return Err(AgentOSError::with_code(CODE_INVALID_PARAMETER, "任务尚未完成"));
    }
    Ok(task_result(task, duration_from_secs(0)))
}

/// What waiting on a task does after reading its status.
#[derive(Debug, Clone, Copy, PartialEq, Eq, Structural)]
pub enum WaitStep {
    /// The task is finished: read it once more and report the result.
    Finish,
    /// The time is up.
    TimedOut,
    /// Read the status again after a pause.
    Poll,
}

/// The step of a wait: finish at a terminal status, else give up once the
/// elapsed time exceeds the timeout, else poll again.
pub fn wait_step(status: TaskStatus, elapsed_ms: u128, timeout_ms: u128) -> (r: WaitStep)
    ensures
        r == (if status.terminal() {
            WaitStep::Finish
        } else if elapsed_ms > timeout_ms {
            WaitStep::TimedOut
        } else {
            WaitStep::Poll
        }),
{
    if status.is_terminal() {
        WaitStep::Finish
    } else if elapsed_ms > timeout_ms {
        WaitStep::TimedOut
    } else {
        WaitStep::Poll
    }
}

/// The error of a wait that ran out of time.
pub fn wait_timeout_error(task_id: &str) -> (r: AgentOSError)
    ensures
        r matches AgentOSError::WithCode { code, message } && code@ == CODE_TASK_TIMEOUT@ && message@ == "任务 "@
            + task_id@ + " 超时"@,
{
    AgentOSError::with_code(CODE_TASK_TIMEOUT, concat3("任务 ", task_id, " 超时").as_str())
}

} // verus!
