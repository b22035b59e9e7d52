//! The memory manager's requests and readings.

use vstd::prelude::*;
use crate::client::{ApiRequest, HttpMethod};
use crate::error::AgentOSError;
use crate::json::{Json, JsonMap, JsonValue, StringMap, insert_entry};
use crate::modules::{
    data_object, invalid_response_with, item_path, list_path, list_path_spec, missing, missing_parameter,
    object_elements, objects_at, opt_object_model, read_count,
};
use crate::text::{i64_to_decimal, int_decimal, owned};
use crate::types::{APIResponse, ListOptions, Memory, MemoryLayer, MemorySearchResult, list_params};
use crate::utils::{
    array_field, build_url, extract_int64_stats, get_f64, get_i64, get_map, get_string, i64_field, int_members,
    number_field, object_field, string_field, url_with_query,
};

verus! {

broadcast use {vstd::std_specs::vec::group_vec_axioms, vstd::string::group_string_axioms};

/// The collection path of memories.
pub const MEMORIES_PATH: &'static str = "/api/v1/memories";

/// The path of memory searches.
pub const SEARCH_PATH: &'static str = "/api/v1/memories/search";

/// One memory of a batch write.
#[derive(Debug)]
pub struct MemoryWriteItem {
    pub content: String,
    pub layer: MemoryLayer,
    pub metadata: Option<JsonMap>,
}

/// The layer named by a text, or L1 when it names none.
pub open spec fn layer_or_l1(s: Seq<char>) -> MemoryLayer {
    match MemoryLayer::parse(s) {
        Some(l) => l,
        None => MemoryLayer::L1,
    }
}

/// `x` is the memory read from the object `m`.
pub open spec fn memory_read_from(x: Memory, m: Seq<(Seq<char>, Json)>) -> bool {
    &&& x.id@ == string_field(m, "memory_id"@)
    &&& x.content@ == string_field(m, "content"@)
    &&& x.layer == layer_or_l1(string_field(m, "layer"@))
    &&& x.score.model() == number_field(m, "score"@)
    &&& x.metadata.model() == object_field(m, "metadata"@)
    &&& x.created_at@ == string_field(m, "created_at"@)
    &&& x.updated_at@ == string_field(m, "updated_at"@)
}

/// Reads a memory from an object.
pub fn parse_memory_from_map(data: &JsonMap) -> (r: Memory)
    ensures
        memory_read_from(r, data.model()),
{
    let layer_text = get_string(data, "layer");
    let layer = match MemoryLayer::from_str(layer_text.as_str()) {
        Some(l) => l,
        None => MemoryLayer::L1,
    };
    Memory {
        id: get_string(data, "memory_id"),
        content: get_string(data, "content"),
        layer,
        score: get_f64(data, "score"),
        metadata: get_map(data, "metadata"),
        created_at: get_string(data, "created_at"),
        updated_at: get_string(data, "updated_at"),
    }
}

/// Reads the memory in a response's data object; an invalid-response error
/// with this message when the data is not an object.
pub fn parse_memory_response(resp: &APIResponse, message: &str) -> (r: Result<Memory, AgentOSError>)
    ensures
        match resp.data.model() {
            Json::Object(m) => r matches Ok(x) && memory_read_from(x, m),
            _ => r matches Err(e) && invalid_response_with(e, message@),
        },
{
    match data_object(resp, message) {
        Ok(m) => Ok(parse_memory_from_map(&m)),
        Err(e) => Err(e),
    }
}

/// Reads the memories listed in a response: each object of the `memories`
/// array of the data object, in order.
pub fn parse_memory_list(resp: &APIResponse) -> (r: Result<Vec<Memory>, AgentOSError>)
    ensures
        match resp.data.model() {
            Json::Object(m) => r matches Ok(v) && v@.len() == object_elements(array_field(m, "memories"@)).len()
                && forall|i: int| 0 <= i < v@.len() ==> memory_read_from(#[trigger] v@[i], object_elements(array_field(m, "memories"@))[i]),
            _ => r matches Err(e) && invalid_response_with(e, "记忆列表响应格式异常"@),
        },
{
    let data = match data_object(resp, "记忆列表响应格式异常") {
        Ok(m) => m,
        Err(e) => {
            return Err(e);
        },
    };
    let objects = objects_at(&data, "memories");
    let ghost objs = objects@.map_values(|m: JsonMap| m.model());
    let mut out: Vec<Memory> = Vec::new();
    let mut i: usize = 0;
    while i < objects.len()
        invariant
            i <= objects.len(),
            objs == objects@.map_values(|m: JsonMap| m.model()),
            out@.len() == i,
            forall|j: int| 0 <= j < i ==> memory_read_from(#[trigger] out@[j], objs[j]),
        decreases objects.len() - i,
    {
        out.push(parse_memory_from_map(&objects[i]));
        i = i + 1;
    }
    Ok(out)
}

/// Reads a search result: the memories listed, in the order the runtime
/// ranked them, the `total` of the data object, the query, and the number
/// of results the search asked for (ten when `top_k` is not positive).
pub fn parse_memory_search_result(resp: &APIResponse, query: &str, top_k: i32) -> (r: Result<MemorySearchResult, AgentOSError>)
    ensures
        match resp.data.model() {
            Json::Object(m) => r matches Ok(x) && x.total == i64_field(m, "total"@) && x.query@ == query@
                && x.top_k == effective_top_k_spec(top_k) && x.memories@.len() == object_elements(array_field(m, "memories"@)).len()
                && forall|i: int| 0 <= i < x.memories@.len() ==> memory_read_from(#[trigger] x.memories@[i], object_elements(array_field(m, "memories"@))[i]),
            _ => r matches Err(e) && invalid_response_with(e, "记忆搜索响应格式异常"@),
        },
{
    let data = match data_object(resp, "记忆搜索响应格式异常") {
        Ok(m) => m,
        Err(e) => {
            return Err(e);
        },
    };
    let memories = match parse_memory_list(resp) {
        Ok(v) => v,
        Err(e) => {
            return Err(e);
        },
    };
    Ok(MemorySearchResult { memories, total: get_i64(&data, "total"), query: owned(query), top_k: effective_top_k(top_k) })
}

/// Reads memory statistics: the integer members of the data object.
pub fn parse_stats(resp: &APIResponse) -> (r: Result<Vec<(String, i64)>, AgentOSError>)
    ensures
        match resp.data.model() {
            Json::Object(m) => r matches Ok(v) && v@.map_values(|e: (String, i64)| (e.0@, e.1)) == int_members(m),
            _ => r matches Err(e) && invalid_response_with(e, "记忆统计响应格式异常"@),
        },
{
    match data_object(resp, "记忆统计响应格式异常") {
        Ok(m) => Ok(extract_int64_stats(&m)),
        Err(e) => Err(e),
    }
}

/// Reads the memory count of a response.
pub fn parse_count(resp: &APIResponse) -> (r: Result<i64, AgentOSError>)
    ensures
        match resp.data.model() {
            Json::Object(m) => r == Ok::<i64, AgentOSError>(i64_field(m, "count"@)),
            _ => r matches Err(e) && invalid_response_with(e, "记忆计数响应格式异常"@),
        },
{
    read_count(resp, "记忆计数响应格式异常")
}

/// The body of a memory write.
pub open spec fn write_body(content: Seq<char>, layer: MemoryLayer, metadata: Option<Seq<(Seq<char>, Json)>>) -> Json {
    let base = seq![("content"@, Json::Str(content)), ("layer"@, Json::Str(layer.name()))];
    Json::Object(
        match metadata {
            Some(m) => base.push(("metadata"@, Json::Object(m))),
            None => base,
        },
    )
}

/// The request that writes a memory; empty content is a missing parameter.
pub fn write_request(content: &str, layer: MemoryLayer, metadata: Option<JsonMap>) -> (r: Result<ApiRequest, AgentOSError>)
    ensures
        content@.len() == 0 ==> (r matches Err(e) && missing_parameter(e, "记忆内容不能为空"@)),
        content@.len() > 0 ==> (r matches Ok(q) && q.method == HttpMethod::Post && q.path@ == MEMORIES_PATH@
            && (q.body matches Some(b) && b.model() == write_body(content@, layer, opt_object_model(metadata)))),
{
    if content.is_empty() {
        return Err(missing("记忆内容不能为空"));
    }
    let ghost meta = opt_object_model(metadata);
    let mut entries: Vec<(String, JsonValue)> = Vec::new();
    entries.push((owned("content"), JsonValue::String(owned(content))));
    entries.push((owned("layer"), JsonValue::String(owned(layer.as_str()))));
    match metadata {
        Some(m) => {
            entries.push((owned("metadata"), JsonValue::Object(m)));
        },
        None => {},
    }
    let map = JsonMap { entries };
    let ghost base = seq![("content"@, Json::Str(content@)), ("layer"@, Json::Str(layer.name()))];
    proof {
        match meta {
            Some(mm) => {
                assert(map.model()[2] == ("metadata"@, Json::Object(mm)));
                assert(map.model() =~= base.push(("metadata"@, Json::Object(mm))));
            },
            None => {
                assert(map.model() =~= base);
            },
        }
    }
    let body = JsonValue::Object(map);
    Ok(ApiRequest { method: HttpMethod::Post, path: owned(MEMORIES_PATH), body: Some(body) })
}

/// A request about one memory; an empty id is a missing parameter.
pub open spec fn memory_request_ok(r: Result<ApiRequest, AgentOSError>, id: Seq<char>, method: HttpMethod, body: Option<Json>) -> bool {
    &&& id.len() == 0 ==> (r matches Err(e) && missing_parameter(e, "记忆ID不能为空"@))
    &&& id.len() > 0 ==> (r matches Ok(q) && q.method == method && q.path@ == MEMORIES_PATH@ + "/"@ + id
        && match body {
        Some(b) => q.body matches Some(x) && x.model() == b,
        None => q.body is None,
    })
}

/// The request that reads one memory.
pub fn get_request(memory_id: &str) -> (r: Result<ApiRequest, AgentOSError>)
    ensures
        memory_request_ok(r, memory_id@, HttpMethod::Get, None),
{
    if memory_id.is_empty() {
        return Err(missing("记忆ID不能为空"));
    }
    Ok(ApiRequest { method: HttpMethod::Get, path: item_path(MEMORIES_PATH, memory_id), body: None })
}

/// The request that replaces a memory's content.
pub fn update_request(memory_id: &str, content: &str) -> (r: Result<ApiRequest, AgentOSError>)
    ensures
        memory_request_ok(r, memory_id@, HttpMethod::Put, Some(Json::Object(seq![("content"@, Json::Str(content@))]))),
{
    if memory_id.is_empty() {
        return Err(missing("记忆ID不能为空"));
    }
    let mut entries: Vec<(String, JsonValue)> = Vec::new();
    entries.push((owned("content"), JsonValue::String(owned(content))));
    let map = JsonMap { entries };
    assert(map.model() =~= seq![("content"@, Json::Str(content@))]);
    Ok(ApiRequest {
        method: HttpMethod::Put,
        path: item_path(MEMORIES_PATH, memory_id),
        body: Some(JsonValue::Object(map)),
    })
}

/// The request that deletes one memory.
pub fn delete_request(memory_id: &str) -> (r: Result<ApiRequest, AgentOSError>)
    ensures
        memory_request_ok(r, memory_id@, HttpMethod::Delete, None),
{
    if memory_id.is_empty() {
        return Err(missing("记忆ID不能为空"));
    }
    Ok(ApiRequest { method: HttpMethod::Delete, path: item_path(MEMORIES_PATH, memory_id), body: None })
}

/// The number of results a search asks for: ten when the given number is
/// not positive.
pub open spec fn effective_top_k_spec(top_k: i32) -> i32 {
    if top_k <= 0 {
        10
    } else {
        top_k
    }
}

/// The number of results a search asks for.
pub fn effective_top_k(top_k: i32) -> (r: i32)
    ensures
        r == effective_top_k_spec(top_k),
{
    if top_k <= 0 {
        10
    } else {
        top_k
    }
}

/// The query parameters of a search: the query, the layer when given, and
/// the number of results.
pub open spec fn search_params(query: Seq<char>, layer: Option<MemoryLayer>, top_k: i32) -> Seq<(Seq<char>, Seq<char>)> {
    let k = ("top_k"@, int_decimal(effective_top_k_spec(top_k) as int));
    match layer {
        Some(l) => seq![("query"@, query), ("layer"@, l.name()), k],
        None => seq![("query"@, query), k],
    }
}

/// The request of a search, in all layers or in one; an empty query is a
/// missing parameter.
pub fn search_request(query: &str, layer: Option<MemoryLayer>, top_k: i32) -> (r: Result<ApiRequest, AgentOSError>)
    ensures
        query@.len() == 0 ==> (r matches Err(e) && missing_parameter(e, "搜索查询不能为空"@)),
        query@.len() > 0 ==> (r matches Ok(q) && q.method == HttpMethod::Get && q.path@ == url_with_query(
            SEARCH_PATH@,
            search_params(query@, layer, top_k),
        ) && q.body is None),
{
    if query.is_empty() {
        return Err(missing("搜索查询不能为空"));
    }
    let k = effective_top_k(top_k);
    let top = i64_to_decimal(k as i64);
    let ghost kv = ("top_k"@, top@);
    let mut v: Vec<(String, String)> = Vec::new();
    v.push((owned("query"), owned(query)));
    match layer {
        Some(l) => {
            v.push((owned("layer"), owned(l.as_str())));
        },
        None => {},
    }
    v.push((owned("top_k"), top));
    let params = StringMap { entries: v };
    proof {
        let m = params.model();
        assert(m[0] == ("query"@, query@));
        match layer {
            Some(l) => {
                assert(m[1] == ("layer"@, l.name()));
                assert(m[2] == kv);
                assert(m =~= seq![("query"@, query@), ("layer"@, l.name()), kv]);
            },
            None => {
                assert(m[1] == kv);
                assert(m =~= seq![("query"@, query@), kv]);
            },
        }
    }
    assert(params.model() =~= search_params(query@, layer, top_k));
    Ok(ApiRequest { method: HttpMethod::Get, path: build_url(SEARCH_PATH, params), body: None })
}

/// The request that lists memories.
pub fn list_request(opts: Option<&ListOptions>) -> (r: ApiRequest)
    ensures
        r.method == HttpMethod::Get,
        r.path@ == list_path_spec(MEMORIES_PATH@, match opts {
            Some(o) => Some(*o),
            None => None,
        }),
        r.body is None,
{
    ApiRequest { method: HttpMethod::Get, path: list_path(MEMORIES_PATH, opts), body: None }
}

/// Parameters set one after another over a base.
pub open spec fn set_all(base: Seq<(Seq<char>, Seq<char>)>, extra: Seq<(Seq<char>, Seq<char>)>) -> Seq<(Seq<char>, Seq<char>)>
    decreases extra.len(),
{
    if extra.len() == 0 {
        base
    } else {
        let prev = set_all(base, extra.drop_last());
        insert_entry(prev, extra.last().0, extra.last().1)
    }
}

/// The query parameters of a list in one layer: the layer, then the list
/// options' parameters set over it.
pub open spec fn layer_list_params(layer: MemoryLayer, opts: Option<ListOptions>) -> Seq<(Seq<char>, Seq<char>)> {
    let base = seq![("layer"@, layer.name())];
    match opts {
        Some(o) => set_all(base, list_params(o)),
        None => base,
    }
}

/// The request that lists the memories of one layer.
pub fn list_by_layer_request(layer: MemoryLayer, opts: Option<&ListOptions>) -> (r: ApiRequest)
    ensures
        r.method == HttpMethod::Get,
        r.path@ == url_with_query(MEMORIES_PATH@, layer_list_params(layer, match opts {
            Some(o) => Some(*o),
            None => None,
        })),
        r.body is None,
{
    let mut params = StringMap::new();
    params.entries.push((owned("layer"), owned(layer.as_str())));
    let ghost base = seq![("layer"@, layer.name())];
    assert(params.model() =~= base);
    match opts {
        Some(o) => {
            let extra = o.to_query_params();
            let ghost e = extra.model();
            let mut i: usize = 0;
            assert(e.take(0) =~= Seq::<(Seq<char>, Seq<char>)>::empty());
            while i < extra.entries.len()
                invariant
                    i <= extra.entries.len(),
                    e == extra.model(),
                    params.model() == set_all(base, e.take(i as int)),
                decreases extra.entries.len() - i,
            {
                assert(e.take(i + 1).drop_last() =~= e.take(i as int));
                let entry = &extra.entries[i];
                params.insert(owned(entry.0.as_str()), owned(entry.1.as_str()));
                i = i + 1;
            }
            assert(e.take(e.len() as int) =~= e);
        },
        None => {},
    }
    ApiRequest { method: HttpMethod::Get, path: build_url(MEMORIES_PATH, params), body: None }
}

/// A request with no body to a fixed path.
pub fn fixed_request(method: HttpMethod, path: &str) -> (r: ApiRequest)
    ensures
        r.method == method,
        r.path@ == path@,
        r.body is None,
{
    ApiRequest { method, path: owned(path), body: None }
}

/// The request that counts memories.
pub fn count_request() -> (r: ApiRequest)
    ensures
        r.method == HttpMethod::Get,
        r.path@ == "/api/v1/memories/count"@,
        r.body is None,
{
    fixed_request(HttpMethod::Get, "/api/v1/memories/count")
}

/// The request that deletes every memory.
pub fn clear_request() -> (r: ApiRequest)
    ensures
        r.method == HttpMethod::Delete,
        r.path@ == MEMORIES_PATH@,
        r.body is None,
{
    fixed_request(HttpMethod::Delete, MEMORIES_PATH)
}

/// The request that asks the runtime to evolve its memories.
pub fn evolve_request() -> (r: ApiRequest)
    ensures
        r.method == HttpMethod::Post,
        r.path@ == "/api/v1/memories/evolve"@,
        r.body is None,
{
    fixed_request(HttpMethod::Post, "/api/v1/memories/evolve")
}

/// The request that reads memory statistics.
pub fn stats_request() -> (r: ApiRequest)
    ensures
        r.method == HttpMethod::Get,
        r.path@ == "/api/v1/memories/stats"@,
        r.body is None,
{
    fixed_request(HttpMethod::Get, "/api/v1/memories/stats")
}

} // verus!
