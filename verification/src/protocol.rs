//! The multi-protocol client's decisions: which protocol a gateway speaks,
//! the path and payload of a request in each protocol, its headers, what a
//! failed attempt means, and the client's counters.

use vstd::prelude::*;
use core::time::Duration;
use crate::client::{duration_from_secs, env_timeout_secs, seconds, timeout_setting, AttemptStep, DEFAULT_ENDPOINT};
use crate::error::AgentOSError;
use crate::json::{Json, JsonMap, JsonNumber, JsonValue, NumberModel, StringMap, i64_number, json_as_i64, lookup, member};
use crate::text::{concat2, concat3, int_decimal, i64_to_decimal, opt_string_view, owned, str_eq};
use vstd::string::StrSliceExecFns;

verus! {

broadcast use {vstd::std_specs::vec::group_vec_axioms, vstd::string::group_string_axioms};

/// A protocol the runtime's gateway can speak.
#[derive(Debug, Clone, Copy, PartialEq, Eq, Structural, Hash)]
pub enum ProtocolType {
    JsonRpc,
    Mcp,
    A2a,
    OpenAi,
    AutoDetect,
}

impl ProtocolType {
    /// The protocol's name.
    pub open spec fn name(self) -> Seq<char> {
        match self {
            ProtocolType::JsonRpc => "jsonrpc"@,
            ProtocolType::Mcp => "mcp"@,
            ProtocolType::A2a => "a2a"@,
            ProtocolType::OpenAi => "openai"@,
            ProtocolType::AutoDetect => "auto"@,
        }
    }

    /// The protocol's name.
    pub fn as_str(&self) -> (r: &'static str)
        ensures
            r@ == self.name(),
    {
        match self {
            ProtocolType::JsonRpc => "jsonrpc",
            ProtocolType::Mcp => "mcp",
            ProtocolType::A2a => "a2a",
            ProtocolType::OpenAi => "openai",
            ProtocolType::AutoDetect => "auto",
        }
    }

    /// The protocol's name, owned.
    pub fn to_string(&self) -> (r: String)
        ensures
            r@ == self.name(),
    {
        owned(self.as_str())
    }
}

/// The settings of a protocol client.
#[derive(Debug)]
pub struct ProtocolConfig {
    pub protocol_type: ProtocolType,
    pub endpoint: String,
    pub api_key: Option<String>,
    pub timeout: Duration,
    pub retry_count: u32,
    pub retry_delay: Duration,
    pub enable_streaming: bool,
    pub extra_headers: StringMap,
}

impl ProtocolConfig {
    /// The default settings with what the environment gives: `env_endpoint`,
    /// `env_timeout` and `env_api_key` are the values of `AGENTRT_ENDPOINT`,
    /// `AGENTRT_TIMEOUT` (whole seconds) and `AGENTRT_API_KEY`, where set.
    /// JSON-RPC, the environment's endpoint or the default one, the
    /// environment's API key if any, its timeout when it is a valid number of
    /// seconds or else thirty seconds, three retries one second apart, no
    /// streaming and no extra headers.
    pub fn default_with_env(
        env_endpoint: Option<String>,
        env_timeout: Option<String>,
        env_api_key: Option<String>,
    ) -> (r: ProtocolConfig)
        ensures
            r.protocol_type == ProtocolType::JsonRpc,
            r.endpoint@ == (match opt_string_view(env_endpoint) {
                Some(e) => e,
                None => DEFAULT_ENDPOINT@,
            }),
            opt_string_view(r.api_key) == opt_string_view(env_api_key),
            r.timeout == seconds(timeout_setting(opt_string_view(env_timeout))),
            r.retry_count == 3,
            r.retry_delay == seconds(1),
            !r.enable_streaming,
            r.extra_headers.model().len() == 0,
    {
        let endpoint = match env_endpoint {
            Some(e) => e,
            None => owned(DEFAULT_ENDPOINT),
        };
        ProtocolConfig {
            protocol_type: ProtocolType::JsonRpc,
            endpoint,
            api_key: env_api_key,
            timeout: duration_from_secs(env_timeout_secs(env_timeout)),
            retry_count: 3,
            retry_delay: duration_from_secs(1),
            enable_streaming: false,
            extra_headers: StringMap::new(),
        }
    }
}

/// The counters of a protocol client: requests answered, and those sent in
/// a protocol other than JSON-RPC.
#[derive(Debug, Clone, Copy, PartialEq, Eq, Structural)]
pub struct ProtocolStats {
    pub requests_sent: u64,
    pub transformations: u64,
}

impl ProtocolStats {
    /// Both counters at zero.
    pub fn new() -> (r: ProtocolStats)
        ensures
            r.requests_sent == 0,
            r.transformations == 0,
    {
        ProtocolStats { requests_sent: 0, transformations: 0 }
    }

    /// Counts the outcome of a request sent in this protocol: an answered
    /// one counts as sent, and as transformed unless the protocol is
    /// JSON-RPC; a failed one leaves the counters as they were.
    pub fn record_outcome(&mut self, protocol_type: ProtocolType, answered: bool)
        requires
            answered ==> old(self).requests_sent < u64::MAX && old(self).transformations < u64::MAX,
        ensures
            answered ==> final(self).requests_sent == old(self).requests_sent + 1
                && final(self).transformations == old(self).transformations + (if protocol_type == ProtocolType::JsonRpc {
                0int
            } else {
                1int
            }),
            !answered ==> *final(self) == *old(self),
    {
        if answered {
            self.record_success(protocol_type);
        }
    }

    /// Counts an answered request sent in this protocol.
    pub fn record_success(&mut self, protocol_type: ProtocolType)
        requires
            old(self).requests_sent < u64::MAX,
            old(self).transformations < u64::MAX,
        ensures
            final(self).requests_sent == old(self).requests_sent + 1,
            final(self).transformations == old(self).transformations + (if protocol_type == ProtocolType::JsonRpc {
                0int
            } else {
                1int
            }),
    {
        self.requests_sent = self.requests_sent + 1;
        if protocol_type != ProtocolType::JsonRpc {
            self.transformations = self.transformations + 1;
        }
    }
}

/// Whether `p` occurs in `s`.
pub open spec fn text_contains(s: Seq<char>, p: Seq<char>) -> bool {
    exists|i: int| 0 <= i && i + p.len() <= s.len() && #[trigger] s.subrange(i, i + p.len()) == p
}

/// `str::contains` with a string pattern: whether the pattern occurs in the
/// text.
#[verifier::external_body]
fn str_contains(s: &str, p: &str) -> (r: bool)
    ensures
        r == text_contains(s@, p@),
{
    s.contains(p)
}

/// What probing a gateway found.
#[derive(Debug)]
pub struct DetectionResult {
    pub detected_type: ProtocolType,
    pub protocol_name: String,
    /// Confidence in percent, at most one hundred.
    pub confidence: u32,
    pub is_streaming: bool,
    pub has_binary_payload: bool,
}

/// The protocol and confidence read from a probe's content type and body:
/// JSON-RPC at fifty percent unless the answer is JSON; a JSON answer adds
/// twenty and is MCP (tool calls or listings), A2A (delegation or
/// discovery), OpenAI (a model and choices) or JSON-RPC, each adding to the
/// confidence, which stops at one hundred.
pub open spec fn detection(content_type: Seq<char>, body: Seq<char>) -> (ProtocolType, u32) {
    if !text_contains(content_type, "application/json"@) {
        (ProtocolType::JsonRpc, 50)
    } else if text_contains(body, "\"tools/call\""@) || text_contains(body, "\"method\":\"tools/list\""@) {
        (ProtocolType::Mcp, 100)
    } else if text_contains(body, "\"task/delegate\""@) || text_contains(body, "\"agent/discover\""@) {
        (ProtocolType::A2a, 100)
    } else if text_contains(body, "\"model\""@) && text_contains(body, "\"choices\""@) {
        (ProtocolType::OpenAi, 95)
    } else if text_contains(body, "\"jsonrpc\""@) {
        (ProtocolType::JsonRpc, 100)
    } else {
        (ProtocolType::JsonRpc, 70)
    }
}

/// What each marker of a probe's answer means: an answer that is not JSON
/// is taken for JSON-RPC at fifty percent; in a JSON answer a quoted
/// `"tools/call"` or a `"method":"tools/list"` is enough for MCP at one
/// hundred percent; otherwise a quoted `"task/delegate"` or
/// `"agent/discover"` is enough for A2A at one hundred; otherwise a model
/// together with choices is OpenAI at ninety-five; otherwise a `"jsonrpc"`
/// member is JSON-RPC at one hundred, and a JSON answer without any marker
/// JSON-RPC at seventy. The confidence lies between fifty and one hundred,
/// and each protocol reports its own name.
pub proof fn law_detection_markers(content_type: Seq<char>, body: Seq<char>)
    ensures
        !text_contains(content_type, "application/json"@) ==> detection(content_type, body) == (
        ProtocolType::JsonRpc, 50u32),
        text_contains(content_type, "application/json"@) && text_contains(body, "\"tools/call\""@)
            ==> detection(content_type, body) == (ProtocolType::Mcp, 100u32),
        text_contains(content_type, "application/json"@) && text_contains(body, "\"method\":\"tools/list\""@)
            ==> detection(content_type, body) == (ProtocolType::Mcp, 100u32),
        text_contains(content_type, "application/json"@) && !text_contains(body, "\"tools/call\""@)
            && !text_contains(body, "\"method\":\"tools/list\""@) && (text_contains(body, "\"task/delegate\""@)
            || text_contains(body, "\"agent/discover\""@)) ==> detection(content_type, body) == (
        ProtocolType::A2a, 100u32),
        detection(content_type, body).0 == ProtocolType::Mcp ==> text_contains(body, "\"tools/call\""@)
            || text_contains(body, "\"method\":\"tools/list\""@),
        detection(content_type, body).0 == ProtocolType::OpenAi ==> text_contains(body, "\"model\""@)
            && text_contains(body, "\"choices\""@) && detection(content_type, body).1 == 95,
        text_contains(content_type, "application/json"@) && !text_contains(body, "\"tools/call\""@)
            && !text_contains(body, "\"method\":\"tools/list\""@) && !text_contains(body, "\"task/delegate\""@)
            && !text_contains(body, "\"agent/discover\""@) && !(text_contains(body, "\"model\""@)
            && text_contains(body, "\"choices\""@)) ==> detection(content_type, body) == (
        ProtocolType::JsonRpc,
        if text_contains(body, "\"jsonrpc\""@) {
            100u32
        } else {
            70u32
        },
    ),
        50 <= detection(content_type, body).1 <= 100,
        ProtocolType::JsonRpc.name() == "jsonrpc"@ && ProtocolType::Mcp.name() == "mcp"@
            && ProtocolType::A2a.name() == "a2a"@ && ProtocolType::OpenAi.name() == "openai"@,
{
}

/// Reads what protocol a gateway speaks from the content type and body of
/// its answer to a probe.
pub fn detect_from_response(content_type: &str, body: &str) -> (r: DetectionResult)
    ensures
        (r.detected_type, r.confidence) == detection(content_type@, body@),
        r.protocol_name@ == r.detected_type.name(),
        r.is_streaming == text_contains(content_type@, "event-stream"@),
        !r.has_binary_payload,
{
    let mut confidence: u32 = 50;
    let mut detected = ProtocolType::JsonRpc;
    if str_contains(content_type, "application/json") {
        confidence = confidence + 20;
        if str_contains(body, "\"tools/call\"") || str_contains(body, "\"method\":\"tools/list\"") {
            detected = ProtocolType::Mcp;
            confidence = confidence + 30;
        } else if str_contains(body, "\"task/delegate\"") || str_contains(body, "\"agent/discover\"") {
            detected = ProtocolType::A2a;
            confidence = confidence + 30;
        } else if str_contains(body, "\"model\"") && str_contains(body, "\"choices\"") {
            detected = ProtocolType::OpenAi;
            confidence = confidence + 25;
        } else if str_contains(body, "\"jsonrpc\"") {
            detected = ProtocolType::JsonRpc;
            confidence = confidence + 40;
        }
    }
    let capped = if confidence > 100 { 100 } else { confidence };
    DetectionResult {
        detected_type: detected,
        protocol_name: detected.to_string(),
        confidence: capped,
        is_streaming: str_contains(content_type, "event-stream"),
        has_binary_payload: false,
    }
}

/// The path requests go to in each protocol.
pub open spec fn url_path_spec(t: ProtocolType) -> Seq<char> {
    match t {
        ProtocolType::OpenAi => "/v1/chat/completions"@,
        ProtocolType::Mcp | ProtocolType::A2a => "/api/v1/invoke"@,
        _ => "/rpc"@,
    }
}

/// Where each protocol's requests go: OpenAI to its chat completions,
/// MCP and A2A to the invocation endpoint, JSON-RPC (and automatic
/// detection) to `/rpc`.
pub proof fn law_url_paths(t: ProtocolType)
    ensures
        t == ProtocolType::OpenAi ==> url_path_spec(t) == "/v1/chat/completions"@,
        (t == ProtocolType::Mcp || t == ProtocolType::A2a) ==> url_path_spec(t) == "/api/v1/invoke"@,
        (t == ProtocolType::JsonRpc || t == ProtocolType::AutoDetect) ==> url_path_spec(t) == "/rpc"@,
{
}

/// The path requests go to in this protocol.
pub fn url_path(t: ProtocolType) -> (r: &'static str)
    ensures
        r@ == url_path_spec(t),
{
    match t {
        ProtocolType::OpenAi => "/v1/chat/completions",
        ProtocolType::Mcp | ProtocolType::A2a => "/api/v1/invoke",
        _ => "/rpc",
    }
}

/// The URL a request is sent to.
pub fn request_url(config: &ProtocolConfig) -> (r: String)
    ensures
        r@ == config.endpoint@ + url_path_spec(config.protocol_type),
{
    concat2(config.endpoint.as_str(), url_path(config.protocol_type))
}

/// The URL that lists a gateway's protocols.
pub fn protocols_url(endpoint: &str) -> (r: String)
    ensures
        r@ == endpoint@ + "/api/v1/protocols"@,
{
    concat2(endpoint, "/api/v1/protocols")
}

/// The URL of one protocol's resource: `test` or `capabilities`.
pub fn protocol_resource_url(endpoint: &str, protocol_name: &str, resource: &str) -> (r: String)
    ensures
        r@ == endpoint@ + "/api/v1/protocols/"@ + protocol_name@ + "/"@ + resource@,
{
    let head = concat3(endpoint, "/api/v1/protocols/", protocol_name);
    concat3(head.as_str(), "/", resource)
}

/// The text after the last `.`, or all of it when there is none.
pub open spec fn last_segment(s: Seq<char>) -> Seq<char>
    decreases s.len(),
{
    if s.len() == 0 {
        s
    } else if s.last() == '.' {
        Seq::empty()
    } else {
        last_segment(s.drop_last()).push(s.last())
    }
}

fn last_segment_exec(s: &str) -> (r: String)
    ensures
        r@ == last_segment(s@),
{
    let n: usize = s.unicode_len();
    let mut start: usize = n;
    assert(s@.subrange(0, n as int) =~= s@);
    assert(s@.subrange(n as int, n as int) =~= Seq::<char>::empty());
    assert(last_segment(s@) + Seq::<char>::empty() =~= last_segment(s@));
    while start > 0 && s.get_char(start - 1) != '.'
        invariant
            start <= n,
            n == s@.len(),
            last_segment(s@) == last_segment(s@.subrange(0, start as int)) + s@.subrange(start as int, n as int),
        decreases start,
    {
        let ghost pre = s@.subrange(0, start as int);
        assert(pre.drop_last() =~= s@.subrange(0, start - 1));
        assert(s@.subrange(start - 1, n as int) =~= seq![pre.last()] + s@.subrange(start as int, n as int));
        assert(last_segment(pre.drop_last()).push(pre.last()) + s@.subrange(start as int, n as int)
            =~= last_segment(pre.drop_last()) + s@.subrange(start - 1, n as int));
        start = start - 1;
    }
    proof {
        if start > 0 {
            let pre = s@.subrange(0, start as int);
            assert(pre.last() == '.');
        } else {
            assert(s@.subrange(0, 0) =~= Seq::<char>::empty());
        }
    }
    assert(Seq::<char>::empty() + s@.subrange(start as int, n as int) =~= s@.subrange(start as int, n as int));
    owned(s.substring_char(start, n))
}

/// The method name an A2A gateway knows for a method.
pub open spec fn a2a_method(method: Seq<char>) -> Seq<char> {
    if method == "agent.list"@ {
        "agent/discover"@
    } else if method == "task.create"@ {
        "task/delegate"@
    } else {
        method
    }
}

/// A2A renames two JSON-RPC methods and keeps every other: listing agents
/// is discovery and creating a task is delegation. An A2A request carries
/// the renamed method, whatever its parameters.
pub proof fn law_a2a_method_table(method: Seq<char>, streaming: bool, params: Json, now_ms: i64)
    ensures
        method == "task.create"@ ==> a2a_method(method) == "task/delegate"@,
        method == "agent.list"@ ==> a2a_method(method) == "agent/discover"@,
        method != "task.create"@ && method != "agent.list"@ ==> a2a_method(method) == method,
        method == "task.create"@ ==> member(payload_spec(ProtocolType::A2a, streaming, method, params, now_ms),
            "method"@) == Some(Json::Str("task/delegate"@)),
        method == "agent.list"@ ==> member(payload_spec(ProtocolType::A2a, streaming, method, params, now_ms),
            "method"@) == Some(Json::Str("agent/discover"@)),
        member(payload_spec(ProtocolType::A2a, streaming, method, params, now_ms), "params"@) == Some(params),
{
    reveal_strlit("task.create");
    reveal_strlit("agent.list");
    reveal_strlit("protocol");
    reveal_strlit("version");
    reveal_strlit("method");
    reveal_strlit("params");
    assert("task.create"@.len() == 11);
    assert("agent.list"@.len() == 10);
    assert("protocol"@.len() == 8);
    assert("version"@.len() == 7);
    assert("method"@.len() == 6);
    assert("params"@.len() == 6);
    assert("task.create"@[0] == 't');
    assert("agent.list"@[0] == 'a');
    assert("protocol"@[0] == 'p');
    assert("version"@[0] == 'v');
    assert("method"@[0] == 'm');
    assert("params"@[0] == 'p');
    let m = payload_spec(ProtocolType::A2a, streaming, method, params, now_ms)->Object_0;
    assert(m[0].0 != "method"@);
    assert(m[1].0 != "method"@);
    assert(m[0].0 != "params"@);
    assert(m[1].0 != "params"@);
    assert(m[2].0 != "params"@);
    assert(m.drop_first().drop_first()[0] == m[2]);
    assert(m.drop_first().drop_first().drop_first()[0] == m[3]);
    assert(m[2] == ("method"@, Json::Str(a2a_method(method))));
    assert(lookup(m.drop_first().drop_first(), "method"@) == Some(Json::Str(a2a_method(method))));
    assert(lookup(m.drop_first(), "method"@) == Some(Json::Str(a2a_method(method))));
    assert(lookup(m, "method"@) == Some(Json::Str(a2a_method(method))));
    let m3 = m.drop_first().drop_first().drop_first();
    assert(m3[0] == ("params"@, params));
    assert(lookup(m3, "params"@) == Some(params));
    assert(lookup(m.drop_first().drop_first(), "params"@) == Some(params));
    assert(lookup(m.drop_first(), "params"@) == Some(params));
    assert(lookup(m, "params"@) == Some(params));
}

/// The payload of a request in each protocol, where `now_ms` is the clock
/// reading a JSON-RPC request id is made of: OpenAI gets the model (default
/// "gpt-4o"), the messages (default none), the temperature (default 0.7),
/// the token limit (default 2048) and the streaming flag; MCP gets the last
/// segment of the method; A2A the mapped method; JSON-RPC an envelope with
/// the id `req_<now_ms>`.
pub open spec fn payload_spec(t: ProtocolType, streaming: bool, method: Seq<char>, params: Json, now_ms: i64) -> Json {
    match t {
        ProtocolType::OpenAi => Json::Object(seq![
            ("model"@, Json::Str(match member(params, "model"@) {
                Some(Json::Str(m)) => m,
                _ => "gpt-4o"@,
            })),
            ("messages"@, match member(params, "messages"@) {
                Some(v) => v,
                None => Json::Array(Seq::empty()),
            }),
            ("temperature"@, Json::Number(match member(params, "temperature"@) {
                Some(Json::Number(n)) => n,
                _ => NumberModel::Float("0.7"@),
            })),
            ("max_tokens"@, Json::Number(i64_number(match member(params, "max_tokens"@) {
                Some(v) => match json_as_i64(v) {
                    Some(i) => i,
                    None => 2048,
                },
                None => 2048,
            }))),
            ("stream"@, Json::Bool(streaming)),
        ]),
        ProtocolType::Mcp => Json::Object(seq![
            ("protocol"@, Json::Str("mcp"@)),
            ("version"@, Json::Str("1.0"@)),
            ("method"@, Json::Str(last_segment(method))),
            ("params"@, params),
        ]),
        ProtocolType::A2a => Json::Object(seq![
            ("protocol"@, Json::Str("a2a"@)),
            ("version"@, Json::Str("0.3"@)),
            ("method"@, Json::Str(a2a_method(method))),
            ("params"@, params),
        ]),
        _ => Json::Object(seq![
            ("jsonrpc"@, Json::Str("2.0"@)),
            ("id"@, Json::Str("req_"@ + int_decimal(now_ms as int))),
            ("method"@, Json::Str(method)),
            ("params"@, params),
        ]),
    }
}

fn entry(key: &str, value: JsonValue) -> (r: (String, JsonValue))
    ensures
        r.0@ == key@,
        r.1 == value,
{
    (owned(key), value)
}

/// Builds the payload of a request at the clock reading `now_ms`.
pub fn build_payload_at(config: &ProtocolConfig, method: &str, params: &JsonValue, now_ms: i64) -> (r: JsonValue)
    ensures
        r.model() == payload_spec(config.protocol_type, config.enable_streaming, method@, params.model(), now_ms),
{
    let mut entries: Vec<(String, JsonValue)> = Vec::new();
    match config.protocol_type {
        ProtocolType::OpenAi => {
            let model = match params.get("model") {
                Some(v) => match v.as_str() {
                    Some(m) => owned(m),
                    None => owned("gpt-4o"),
                },
                None => owned("gpt-4o"),
            };
            let messages = match params.get("messages") {
                Some(v) => v.deep_clone(),
                None => {
                    let empty = JsonValue::Array(Vec::new());
                    assert(empty.model() == Json::Array(Seq::empty())) by {
                        assert(empty.model()->Array_0 =~= Seq::<Json>::empty());
                    }
                    empty
                },
            };
            assert(messages.model() == match member(params.model(), "messages"@) {
                Some(v) => v,
                None => Json::Array(Seq::empty()),
            });
            let temperature = match params.get("temperature") {
                Some(v) => match v.as_number() {
                    Some(n) => n.copy(),
                    None => JsonNumber::Float(owned("0.7")),
                },
                None => JsonNumber::Float(owned("0.7")),
            };
            let max_tokens = match params.get("max_tokens") {
                Some(v) => match v.as_i64() {
                    Some(i) => i,
                    None => 2048,
                },
                None => 2048,
            };
            let ghost e = seq![
                ("model"@, Json::Str(model@)),
                ("messages"@, messages.model()),
                ("temperature"@, Json::Number(temperature.model())),
                ("max_tokens"@, Json::Number(i64_number(max_tokens))),
                ("stream"@, Json::Bool(config.enable_streaming)),
            ];
            entries.push(entry("model", JsonValue::String(model)));
            entries.push(entry("messages", messages));
            entries.push(entry("temperature", JsonValue::Number(temperature)));
            entries.push(entry("max_tokens", JsonValue::from_i64(max_tokens)));
            entries.push(entry("stream", JsonValue::Bool(config.enable_streaming)));
            assert(JsonMap { entries }.model() =~= e);
            assert(e =~= payload_spec(config.protocol_type, config.enable_streaming, method@, params.model(), now_ms)->Object_0);
        },
        ProtocolType::Mcp => {
            let seg = last_segment_exec(method);
            let ghost e = seq![
                ("protocol"@, Json::Str("mcp"@)),
                ("version"@, Json::Str("1.0"@)),
                ("method"@, Json::Str(seg@)),
                ("params"@, params.model()),
            ];
            entries.push(entry("protocol", JsonValue::String(owned("mcp"))));
            entries.push(entry("version", JsonValue::String(owned("1.0"))));
            entries.push(entry("method", JsonValue::String(seg)));
            entries.push(entry("params", params.deep_clone()));
            assert(JsonMap { entries }.model() =~= e);
            assert(e =~= payload_spec(config.protocol_type, config.enable_streaming, method@, params.model(), now_ms)->Object_0);
        },
        ProtocolType::A2a => {
            let mapped = if str_eq(method, "agent.list") {
                owned("agent/discover")
            } else if str_eq(method, "task.create") {
                owned("task/delegate")
            } else {
                owned(method)
            };
            let ghost e = seq![
                ("protocol"@, Json::Str("a2a"@)),
                ("version"@, Json::Str("0.3"@)),
                ("method"@, Json::Str(mapped@)),
                ("params"@, params.model()),
            ];
            entries.push(entry("protocol", JsonValue::String(owned("a2a"))));
            entries.push(entry("version", JsonValue::String(owned("0.3"))));
            entries.push(entry("method", JsonValue::String(mapped)));
            entries.push(entry("params", params.deep_clone()));
            assert(JsonMap { entries }.model() =~= e);
            assert(e =~= payload_spec(config.protocol_type, config.enable_streaming, method@, params.model(), now_ms)->Object_0);
        },
        _ => {
            let id = concat2("req_", i64_to_decimal(now_ms).as_str());
            let ghost e = seq![
                ("jsonrpc"@, Json::Str("2.0"@)),
                ("id"@, Json::Str(id@)),
                ("method"@, Json::Str(method@)),
                ("params"@, params.model()),
            ];
            entries.push(entry("jsonrpc", JsonValue::String(owned("2.0"))));
            entries.push(entry("id", JsonValue::String(id)));
            entries.push(entry("method", JsonValue::String(owned(method))));
            entries.push(entry("params", params.deep_clone()));
            assert(JsonMap { entries }.model() =~= e);
            assert(e =~= payload_spec(config.protocol_type, config.enable_streaming, method@, params.model(), now_ms)->Object_0);
        },
    }
    let map = JsonMap { entries };
    assert(map.model() =~= payload_spec(config.protocol_type, config.enable_streaming, method@, params.model(), now_ms)->Object_0);
    JsonValue::Object(map)
}

/// The milliseconds since the Unix epoch by chrono's `Utc::now`
/// (`timestamp_millis`). Nothing is stated of the value: it depends on the
/// clock.
#[verifier::external_body]
fn utc_now_millis() -> (r: i64) {
    chrono::Utc::now().timestamp_millis()
}

/// Builds the payload of a request now.
pub fn build_request_payload(config: &ProtocolConfig, method: &str, params: &JsonValue) -> (r: JsonValue)
    ensures
        exists|now_ms: i64| r.model() == #[trigger] payload_spec(config.protocol_type, config.enable_streaming, method@, params.model(), now_ms),
{
    let now = utc_now_millis();
    build_payload_at(config, method, params, now)
}

/// The headers a request is sent with: JSON content, JSON accepted, the
/// bearer token when there is an API key, and the extra headers.
pub open spec fn protocol_headers_spec(api_key: Option<Seq<char>>, extra: Seq<(Seq<char>, Seq<char>)>) -> Seq<(Seq<char>, Seq<char>)> {
    let base = seq![("Content-Type"@, "application/json"@), ("Accept"@, "application/json"@)];
    let auth = match api_key {
        Some(k) => seq![("Authorization"@, "Bearer "@ + k)],
        None => Seq::empty(),
    };
    base + auth + extra
}

/// The headers of a request. Headers whose name or value HTTP does not
/// accept are left to the transport to drop.
pub fn protocol_headers(config: &ProtocolConfig) -> (r: Vec<(String, String)>)
    ensures
        r@.map_values(|e: (String, String)| (e.0@, e.1@)) == protocol_headers_spec(
            opt_string_view(config.api_key),
            config.extra_headers.model(),
        ),
{
    let ghost key = opt_string_view(config.api_key);
    let ghost prefix = protocol_headers_spec(key, Seq::empty());
    let mut out: Vec<(String, String)> = Vec::new();
    out.push((owned("Content-Type"), owned("application/json")));
    out.push((owned("Accept"), owned("application/json")));
    match &config.api_key {
        Some(k) => {
            out.push((owned("Authorization"), concat2("Bearer ", k.as_str())));
        },
        None => {},
    }
    assert(out@.map_values(|e: (String, String)| (e.0@, e.1@)) =~= prefix);
    let ghost extra = config.extra_headers.model();
    let mut i: usize = 0;
    while i < config.extra_headers.entries.len()
        invariant
            i <= config.extra_headers.entries.len(),
            extra == config.extra_headers.model(),
            out@.map_values(|e: (String, String)| (e.0@, e.1@)) == prefix + extra.take(i as int),
        decreases config.extra_headers.entries.len() - i,
    {
        let ghost before = out@;
        let item = &config.extra_headers.entries[i];
        assert(extra[i as int] == (item.0@, item.1@));
        out.push((owned(item.0.as_str()), owned(item.1.as_str())));
        assert(out@.map_values(|e: (String, String)| (e.0@, e.1@)) =~= before.map_values(|e: (String, String)| (e.0@, e.1@)).push(extra[i as int]));
        assert(extra.take(i + 1) =~= extra.take(i as int).push(extra[i as int]));
        i = i + 1;
    }
    assert(extra.take(extra.len() as int) =~= extra);
    assert(protocol_headers_spec(key, extra) =~= prefix + extra);
    out
}

/// A failed attempt of a protocol request: an answer with a status that is
/// not a success, or no answer (timed out, not connected, or another
/// failure, with its description).
#[derive(Debug)]
pub enum ProtocolFailure {
    Status { status: u16, body: String },
    Transport { timeout: bool, connect: bool, detail: String },
}

/// `error` and `retry` are the verdict on a failed protocol attempt.
pub open spec fn protocol_verdict(failure: ProtocolFailure, error: AgentOSError, retry: bool) -> bool {
    match failure {
        ProtocolFailure::Status { status, body } => !retry && (error matches AgentOSError::Http(m) && m@ == "HTTP "@
            + int_decimal(status as int) + ": "@ + body@),
        ProtocolFailure::Transport { timeout, connect, detail } => retry == (timeout || connect) && if timeout
            || connect {
            error matches AgentOSError::Timeout(m) && m@ == detail@
        } else {
            error matches AgentOSError::Network(m) && m@ == detail@
        },
    }
}

/// The failure is one a protocol request tries again after: a timeout or a
/// refused connection.
pub open spec fn is_protocol_retried(failure: ProtocolFailure) -> bool {
    match failure {
        ProtocolFailure::Status { status, body } => false,
        ProtocolFailure::Transport { timeout, connect, detail } => timeout || connect,
    }
}

/// The verdict on a failed protocol attempt: a failed status is an HTTP
/// error `HTTP <status>: <body>` and ends the request; a timeout or refused
/// connection is a timeout error and is retried; any other failure is a
/// network error and ends the request.
pub fn judge_protocol_failure(failure: ProtocolFailure) -> (r: (AgentOSError, bool))
    ensures
        protocol_verdict(failure, r.0, r.1),
{
    match failure {
        ProtocolFailure::Status { status, body } => {
            let head = concat2("HTTP ", i64_to_decimal(status as i64).as_str());
            let msg = concat3(head.as_str(), ": ", body.as_str());
            (AgentOSError::http(msg.as_str()), false)
        },
        ProtocolFailure::Transport { timeout, connect, detail } => {
            if timeout || connect {
                (AgentOSError::timeout(detail.as_str()), true)
            } else {
                (AgentOSError::network(detail.as_str()), false)
            }
        },
    }
}

/// The step after the failed attempt number `attempt` (counted from zero)
/// of a protocol request allowed `retry_count` retries: tried again when the
/// verdict says so and retries are left, else ended with the verdict's
/// error.
pub open spec fn protocol_step_matches(attempt: int, retry_count: u32, failure: ProtocolFailure, step: AttemptStep) -> bool {
    exists|e: AgentOSError, retry: bool|
        #[trigger] protocol_verdict(failure, e, retry) && match step {
            AttemptStep::Retry => retry && attempt < retry_count,
            AttemptStep::Fail(x) => !(retry && attempt < retry_count) && x == e,
        }
}

/// Decides what follows the failed attempt number `attempt` of a protocol
/// request allowed `retry_count` retries.
pub fn protocol_next_step(attempt: u32, retry_count: u32, failure: ProtocolFailure) -> (r: AttemptStep)
    ensures
        protocol_step_matches(attempt as int, retry_count, failure, r),
{
    let (error, retry) = judge_protocol_failure(failure);
    if retry && attempt < retry_count {
        let ghost e = error;
        assert(protocol_verdict(failure, e, retry));
        AttemptStep::Retry
    } else {
        let ghost e = error;
        assert(protocol_verdict(failure, e, retry));
        AttemptStep::Fail(error)
    }
}

/// A protocol request makes at most `retry_count + 1` attempts, and one that
/// ends on a failure that would be retried has made exactly that many; a
/// failed status ends it at once.
pub proof fn law_protocol_attempts_bounded(retry_count: u32, failures: Seq<ProtocolFailure>, steps: Seq<AttemptStep>)
    requires
        steps.len() == failures.len(),
        forall|i: int| 0 <= i < steps.len() ==> protocol_step_matches(i, retry_count, #[trigger] failures[i], steps[i]),
        forall|i: int| 0 <= i < steps.len() - 1 ==> #[trigger] steps[i] is Retry,
    ensures
        steps.len() <= retry_count + 1,
        steps.len() > 0 && steps.last() is Fail && is_protocol_retried(failures.last()) ==> steps.len() == retry_count + 1,
        forall|i: int| 0 <= i < steps.len() && (#[trigger] failures[i]) is Status ==> steps[i] is Fail,
{
    if steps.len() > retry_count + 1 {
        let k = retry_count as int;
        assert(steps[k] is Retry);
        assert(protocol_step_matches(k, retry_count, failures[k], steps[k]));
    }
    if steps.len() > 0 {
        let n = steps.len() - 1;
        assert(protocol_step_matches(n, retry_count, failures[n], steps[n]));
    }
    assert forall|i: int| 0 <= i < steps.len() && (#[trigger] failures[i]) is Status implies steps[i] is Fail by {
        assert(protocol_step_matches(i, retry_count, failures[i], steps[i]));
    }
}

/// The status a connection test reports for an answer with this HTTP
/// status: "ok" for a success, "error" otherwise.
pub fn connection_status(code: u16) -> (r: String)
    ensures
        r@ == (if 200 <= code <= 299 {
            "ok"@
        } else {
            "error"@
        }),
{
    if 200 <= code && code <= 299 {
        owned("ok")
    } else {
        owned("error")
    }
}

/// The strings among the elements of a gateway's `protocols` list.
pub open spec fn protocol_names(a: Seq<Json>) -> Seq<Seq<char>>
    decreases a.len(),
{
    if a.len() == 0 {
        Seq::empty()
    } else {
        let rest = protocol_names(a.drop_last());
        match a.last() {
            Json::Str(s) => rest.push(s),
            _ => rest,
        }
    }
}

/// Reads the protocols a gateway lists: the strings in the array at
/// `protocols`, none when there is no such array.
pub fn protocols_from(data: &JsonValue) -> (r: Vec<String>)
    ensures
        r@.map_values(|s: String| s@) == protocol_names(match member(data.model(), "protocols"@) {
            Some(Json::Array(a)) => a,
            _ => Seq::empty(),
        }),
{
    let ghost a = match member(data.model(), "protocols"@) {
        Some(Json::Array(a)) => a,
        _ => Seq::<Json>::empty(),
    };
    let mut out: Vec<String> = Vec::new();
    match data.get("protocols") {
        Some(v) => match v.as_array() {
            Some(items) => {
                assert(items@.map_values(|x: JsonValue| x.model()) =~= a);
                let mut i: usize = 0;
                while i < items.len()
                    invariant
                        i <= items.len(),
                        items@.map_values(|x: JsonValue| x.model()) == a,
                        out@.map_values(|s: String| s@) == protocol_names(a.take(i as int)),
                    decreases items.len() - i,
                {
                    assert(a.take(i + 1).drop_last() =~= a.take(i as int));
                    assert(a.take(i + 1).last() == items@[i as int].model());
                    match items[i].as_str() {
                        Some(s) => {
                            let ghost before = out@;
                            out.push(owned(s));
                            assert(out@.map_values(|x: String| x@) =~= before.map_values(|x: String| x@).push(s@));
                        },
                        None => {},
                    }
                    i = i + 1;
                }
                assert(a.take(a.len() as int) =~= a);
            },
            None => {
                assert(protocol_names(a) =~= Seq::<Seq<char>>::empty());
            },
        },
        None => {
            assert(protocol_names(a) =~= Seq::<Seq<char>>::empty());
        },
    }
    assert(out@.map_values(|s: String| s@) =~= protocol_names(a)) by {
        if a.len() == 0 {
            assert(out@.len() == 0);
        }
    }
    out
}

} // verus!
