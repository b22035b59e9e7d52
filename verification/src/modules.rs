//! What the task, memory, session and skill managers decide: the requests
//! they send for each operation, the checks they make first, and how they
//! read the runtime's answers.

use vstd::prelude::*;
use crate::error::{AgentOSError, CODE_MISSING_PARAMETER};
use crate::json::{Json, JsonMap, JsonValue};
use crate::types::{APIResponse, ListOptions, list_params};
use crate::text::{concat3, owned};
use crate::utils::{build_url, get_i64, i64_field, url_with_query};

pub mod memory;
pub mod session;
pub mod skill;
pub mod task;

verus! {

broadcast use {vstd::std_specs::vec::group_vec_axioms, vstd::string::group_string_axioms};

/// `e` reports a missing parameter with this message.
pub open spec fn missing_parameter(e: AgentOSError, msg: Seq<char>) -> bool {
    e matches AgentOSError::WithCode { code, message } && code@ == CODE_MISSING_PARAMETER@ && message@ == msg
}

/// `e` reports an invalid response with this message.
pub open spec fn invalid_response_with(e: AgentOSError, msg: Seq<char>) -> bool {
    e matches AgentOSError::InvalidResponse(m) && m@ == msg
}

/// An error for a missing parameter.
pub fn missing(message: &str) -> (r: AgentOSError)
    ensures
        missing_parameter(r, message@),
{
    AgentOSError::with_code(CODE_MISSING_PARAMETER, message)
}

/// The data object of a response, or an invalid-response error with this
/// message when the data is not an object.
pub fn data_object(resp: &APIResponse, message: &str) -> (r: Result<JsonMap, AgentOSError>)
    ensures
        match resp.data.model() {
            Json::Object(m) => r matches Ok(x) && x.model() == m,
            _ => r matches Err(e) && invalid_response_with(e, message@),
        },
{
    match resp.data.as_object() {
        Some(m) => Ok(m.deep_clone()),
        None => Err(AgentOSError::invalid_response(message)),
    }
}

/// The path of one item below a collection path.
pub fn item_path(base: &str, id: &str) -> (r: String)
    ensures
        r@ == base@ + "/"@ + id@,
{
    concat3(base, "/", id)
}

/// The path of a list query: the collection path with the options' query
/// string, or the bare path without options.
pub open spec fn list_path_spec(base: Seq<char>, opts: Option<ListOptions>) -> Seq<char> {
    match opts {
        Some(o) => url_with_query(base, list_params(o)),
        None => base,
    }
}

/// The path of a list query.
pub fn list_path(base: &str, opts: Option<&ListOptions>) -> (r: String)
    ensures
        r@ == list_path_spec(base@, match opts {
            Some(o) => Some(*o),
            None => None,
        }),
{
    match opts {
        Some(o) => build_url(base, o.to_query_params()),
        None => owned(base),
    }
}

/// Reads the `count` of a response's data object; zero when absent.
pub fn read_count(resp: &APIResponse, message: &str) -> (r: Result<i64, AgentOSError>)
    ensures
        match resp.data.model() {
            Json::Object(m) => r == Ok::<i64, AgentOSError>(i64_field(m, "count"@)),
            _ => r matches Err(e) && invalid_response_with(e, message@),
        },
{
    match resp.data.as_object() {
        Some(m) => Ok(get_i64(m, "count")),
        None => Err(AgentOSError::invalid_response(message)),
    }
}

/// The objects among the elements of an array, in order.
pub open spec fn object_elements(a: Seq<Json>) -> Seq<Seq<(Seq<char>, Json)>>
    decreases a.len(),
{
    if a.len() == 0 {
        Seq::empty()
    } else {
        let rest = object_elements(a.drop_last());
        match a.last() {
            Json::Object(o) => rest.push(o),
            _ => rest,
        }
    }
}

/// The view of an optional object.
pub open spec fn opt_object_model(o: Option<JsonMap>) -> Option<Seq<(Seq<char>, Json)>> {
    match o {
        Some(m) => Some(m.model()),
        None => None,
    }
}

/// The views of a list of JSON values.
pub open spec fn value_models(v: Seq<JsonValue>) -> Seq<Json> {
    v.map_values(|x: JsonValue| x.model())
}

/// Copies of the objects among the elements of the array at `key` of an
/// object.
pub fn objects_at(data: &JsonMap, key: &str) -> (r: Vec<JsonMap>)
    ensures
        r@.map_values(|m: JsonMap| m.model()) == object_elements(crate::utils::array_field(data.model(), key@)),
{
    let items = crate::utils::get_interface_slice(data, key);
    let ghost a = crate::utils::array_field(data.model(), key@);
    assert(value_models(items@) =~= a);
    let mut out: Vec<JsonMap> = Vec::new();
    let mut i: usize = 0;
    while i < items.len()
        invariant
            i <= items.len(),
            value_models(items@) == a,
            out@.map_values(|m: JsonMap| m.model()) == object_elements(a.take(i as int)),
        decreases items.len() - i,
    {
        assert(a.take(i + 1).drop_last() =~= a.take(i as int));
        assert(a.take(i + 1).last() == items@[i as int].model());
        match items[i].as_object() {
            Some(o) => {
                let ghost before = out@;
                out.push(o.deep_clone());
                assert(out@.map_values(|m: JsonMap| m.model()) =~= before.map_values(|m: JsonMap| m.model()).push(
                    o.model()));
            },
            None => {},
        }
        i = i + 1;
    }
    assert(a.take(a.len() as int) =~= a);
    out
}

} // verus!
