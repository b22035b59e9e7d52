//! The status enums of the SDK's domain objects and their wire names.

use vstd::prelude::*;
use crate::text::{str_eq, str_to_uppercase, unicode_upper, all_ascii, ascii_upper_char, i64_to_decimal, int_decimal, owned};
use crate::json::{JsonMap, JsonNumber, JsonValue, StringMap, Json, insert_entry, json_text_render, to_json_text, lookup, law_insert_lookup};
use core::time::Duration;

verus! {

broadcast use vstd::string::group_string_axioms;

/// Status of a task.
#[derive(Debug, Clone, Copy, PartialEq, Eq, Structural)]
pub enum TaskStatus {
    Pending,
    Running,
    Completed,
    Failed,
    Cancelled,
}

impl TaskStatus {
    /// The wire name of a task status.
    pub open spec fn name(self) -> Seq<char> {
        match self {
            TaskStatus::Pending => "pending"@,
            TaskStatus::Running => "running"@,
            TaskStatus::Completed => "completed"@,
            TaskStatus::Failed => "failed"@,
            TaskStatus::Cancelled => "cancelled"@,
        }
    }

    /// The task status whose wire name is `s`, if any.
    pub open spec fn parse(s: Seq<char>) -> Option<TaskStatus> {
        if s == "pending"@ {
            Some(TaskStatus::Pending)
        } else if s == "running"@ {
            Some(TaskStatus::Running)
        } else if s == "completed"@ {
            Some(TaskStatus::Completed)
        } else if s == "failed"@ {
            Some(TaskStatus::Failed)
        } else if s == "cancelled"@ {
            Some(TaskStatus::Cancelled)
        } else {
            None
        }
    }

    /// A terminal status: completed, failed or cancelled.
    pub open spec fn terminal(self) -> bool {
        self is Completed || self is Failed || self is Cancelled
    }

    /// The wire name of this status.
    pub fn as_str(&self) -> (r: &'static str)
        ensures
            r@ == self.name(),
    {
        match self {
            TaskStatus::Pending => "pending",
            TaskStatus::Running => "running",
            TaskStatus::Completed => "completed",
            TaskStatus::Failed => "failed",
            TaskStatus::Cancelled => "cancelled",
        }
    }

    /// Parses a wire name.
    pub fn from_str(s: &str) -> (r: Option<Self>)
        ensures
            r == TaskStatus::parse(s@),
    {
        if str_eq(s, "pending") {
            Some(TaskStatus::Pending)
        } else if str_eq(s, "running") {
            Some(TaskStatus::Running)
        } else if str_eq(s, "completed") {
            Some(TaskStatus::Completed)
        } else if str_eq(s, "failed") {
            Some(TaskStatus::Failed)
        } else if str_eq(s, "cancelled") {
            Some(TaskStatus::Cancelled)
        } else {
            None
        }
    }

    /// Whether the task has reached a terminal status.
    pub fn is_terminal(&self) -> (r: bool)
        ensures
            r == self.terminal(),
    {
        match self {
            TaskStatus::Completed | TaskStatus::Failed | TaskStatus::Cancelled => true,
            _ => false,
        }
    }
}

/// Parsing a task status's wire name gives that status back, and a parsed
/// status has the parsed text as its wire name.
pub proof fn law_task_status_round_trip(t: TaskStatus, s: Seq<char>)
    ensures
        TaskStatus::parse(t.name()) == Some(t),
        TaskStatus::parse(s) matches Some(u) ==> u.name() == s,
{
    reveal_strlit("pending");
    reveal_strlit("running");
    reveal_strlit("completed");
    reveal_strlit("failed");
    reveal_strlit("cancelled");
    assert("running"@[0] != "pending"@[0]);
    assert("completed"@[0] != "pending"@[0] && "completed"@[0] != "running"@[0]);
    assert("failed"@[0] != "pending"@[0] && "failed"@[0] != "running"@[0]
        && "failed"@[0] != "completed"@[0]);
    assert("cancelled"@[0] != "pending"@[0] && "cancelled"@[0] != "running"@[0]
        && "cancelled"@[1] != "completed"@[1] && "cancelled"@[0] != "failed"@[0]);
}

/// Layer of a memory record.
#[derive(Debug, Clone, Copy, PartialEq, Eq, Structural)]
pub enum MemoryLayer {
    L1,
    L2,
    L3,
    L4,
}

impl MemoryLayer {
    /// The wire name of a memory layer.
    pub open spec fn name(self) -> Seq<char> {
        match self {
            MemoryLayer::L1 => "L1"@,
            MemoryLayer::L2 => "L2"@,
            MemoryLayer::L3 => "L3"@,
            MemoryLayer::L4 => "L4"@,
        }
    }

    /// The layer whose wire name equals an already upper-cased text.
    pub open spec fn parse_upper(u: Seq<char>) -> Option<MemoryLayer> {
        if u == "L1"@ {
            Some(MemoryLayer::L1)
        } else if u == "L2"@ {
            Some(MemoryLayer::L2)
        } else if u == "L3"@ {
            Some(MemoryLayer::L3)
        } else if u == "L4"@ {
            Some(MemoryLayer::L4)
        } else {
            None
        }
    }

    /// The layer that a text names, compared without regard to case.
    pub open spec fn parse(s: Seq<char>) -> Option<MemoryLayer> {
        MemoryLayer::parse_upper(unicode_upper(s))
    }

    /// The wire name of this layer.
    pub fn as_str(&self) -> (r: &'static str)
        ensures
            r@ == self.name(),
    {
        match self {
            MemoryLayer::L1 => "L1",
            MemoryLayer::L2 => "L2",
            MemoryLayer::L3 => "L3",
            MemoryLayer::L4 => "L4",
        }
    }

    /// Parses a layer name, ignoring case.
    pub fn from_str(s: &str) -> (r: Option<Self>)
        ensures
            r == MemoryLayer::parse(s@),
            all_ascii(s@) ==> r == MemoryLayer::parse_upper(
                s@.map_values(|c: char| ascii_upper_char(c)),
            ),
    {
        let upper = str_to_uppercase(s);
        let u = upper.as_str();
        if str_eq(u, "L1") {
            Some(MemoryLayer::L1)
        } else if str_eq(u, "L2") {
            Some(MemoryLayer::L2)
        } else if str_eq(u, "L3") {
            Some(MemoryLayer::L3)
        } else if str_eq(u, "L4") {
            Some(MemoryLayer::L4)
        } else {
            None
        }
    }

    /// Every layer value is a valid layer.
    pub fn is_valid(&self) -> (r: bool)
        ensures
            r,
    {
        match self {
            MemoryLayer::L1 | MemoryLayer::L2 | MemoryLayer::L3 | MemoryLayer::L4 => true,
        }
    }
}

/// A layer's wire name, and its lower-case spelling, parse back to that
/// layer.
pub proof fn law_memory_layer_round_trip(l: MemoryLayer)
    ensures
        MemoryLayer::parse_upper(l.name()) == Some(l),
        MemoryLayer::parse_upper(l.name().map_values(|c: char| ascii_upper_char(c))) == Some(l),
{
    reveal_strlit("L1");
    reveal_strlit("L2");
    reveal_strlit("L3");
    reveal_strlit("L4");
    assert("L1"@[1] != "L2"@[1] && "L1"@[1] != "L3"@[1] && "L1"@[1] != "L4"@[1]);
    assert("L2"@[1] != "L3"@[1] && "L2"@[1] != "L4"@[1] && "L3"@[1] != "L4"@[1]);
    assert(l.name().map_values(|c: char| ascii_upper_char(c)) =~= l.name());
}

/// Status of a session.
#[derive(Debug, Clone, Copy, PartialEq, Eq, Structural)]
pub enum SessionStatus {
    Active,
    Inactive,
    Expired,
}

impl SessionStatus {
    /// The wire name of a session status.
    pub open spec fn name(self) -> Seq<char> {
        match self {
            SessionStatus::Active => "active"@,
            SessionStatus::Inactive => "inactive"@,
            SessionStatus::Expired => "expired"@,
        }
    }

    /// The session status whose wire name is `s`, if any.
    pub open spec fn parse(s: Seq<char>) -> Option<SessionStatus> {
        if s == "active"@ {
            Some(SessionStatus::Active)
        } else if s == "inactive"@ {
            Some(SessionStatus::Inactive)
        } else if s == "expired"@ {
            Some(SessionStatus::Expired)
        } else {
            None
        }
    }

    /// The wire name of this status.
    pub fn as_str(&self) -> (r: &'static str)
        ensures
            r@ == self.name(),
    {
        match self {
            SessionStatus::Active => "active",
            SessionStatus::Inactive => "inactive",
            SessionStatus::Expired => "expired",
        }
    }

    /// Parses a wire name.
    pub fn from_str(s: &str) -> (r: Option<Self>)
        ensures
            r == SessionStatus::parse(s@),
    {
        if str_eq(s, "active") {
            Some(SessionStatus::Active)
        } else if str_eq(s, "inactive") {
            Some(SessionStatus::Inactive)
        } else if str_eq(s, "expired") {
            Some(SessionStatus::Expired)
        } else {
            None
        }
    }
}

/// Parsing a session status's wire name gives that status back.
pub proof fn law_session_status_round_trip(t: SessionStatus, s: Seq<char>)
    ensures
        SessionStatus::parse(t.name()) == Some(t),
        SessionStatus::parse(s) matches Some(u) ==> u.name() == s,
{
    reveal_strlit("active");
    reveal_strlit("inactive");
    reveal_strlit("expired");
    assert("inactive"@[0] != "active"@[0]);
    assert("expired"@[0] != "active"@[0] && "expired"@[0] != "inactive"@[0]);
}

/// Status of a skill.
#[derive(Debug, Clone, Copy, PartialEq, Eq, Structural)]
pub enum SkillStatus {
    Active,
    Inactive,
    Deprecated,
}

impl SkillStatus {
    /// The wire name of a skill status.
    pub open spec fn name(self) -> Seq<char> {
        match self {
            SkillStatus::Active => "active"@,
            SkillStatus::Inactive => "inactive"@,
            SkillStatus::Deprecated => "deprecated"@,
        }
    }

    /// The skill status whose wire name is `s`, if any.
    pub open spec fn parse(s: Seq<char>) -> Option<SkillStatus> {
        if s == "active"@ {
            Some(SkillStatus::Active)
        } else if s == "inactive"@ {
            Some(SkillStatus::Inactive)
        } else if s == "deprecated"@ {
            Some(SkillStatus::Deprecated)
        } else {
            None
        }
    }

    /// The wire name of this status.
    pub fn as_str(&self) -> (r: &'static str)
        ensures
            r@ == self.name(),
    {
        match self {
            SkillStatus::Active => "active",
            SkillStatus::Inactive => "inactive",
            SkillStatus::Deprecated => "deprecated",
        }
    }

    /// Parses a wire name.
    pub fn from_str(s: &str) -> (r: Option<Self>)
        ensures
            r == SkillStatus::parse(s@),
    {
        if str_eq(s, "active") {
            Some(SkillStatus::Active)
        } else if str_eq(s, "inactive") {
            Some(SkillStatus::Inactive)
        } else if str_eq(s, "deprecated") {
            Some(SkillStatus::Deprecated)
        } else {
            None
        }
    }
}

/// Parsing a skill status's wire name gives that status back.
pub proof fn law_skill_status_round_trip(t: SkillStatus, s: Seq<char>)
    ensures
        SkillStatus::parse(t.name()) == Some(t),
        SkillStatus::parse(s) matches Some(u) ==> u.name() == s,
{
    reveal_strlit("active");
    reveal_strlit("inactive");
    reveal_strlit("deprecated");
    assert("inactive"@[0] != "active"@[0]);
    assert("deprecated"@[0] != "active"@[0] && "deprecated"@[0] != "inactive"@[0]);
}

/// Status of a telemetry span.
#[derive(Debug, Clone, Copy, PartialEq, Eq, Structural)]
pub enum SpanStatus {
    OK,
    Error,
    Unset,
}

impl SpanStatus {
    /// The wire name of a span status.
    pub open spec fn name(self) -> Seq<char> {
        match self {
            SpanStatus::OK => "ok"@,
            SpanStatus::Error => "error"@,
            SpanStatus::Unset => "unset"@,
        }
    }

    /// The wire name of this status.
    pub fn as_str(&self) -> (r: &'static str)
        ensures
            r@ == self.name(),
    {
        match self {
            SpanStatus::OK => "ok",
            SpanStatus::Error => "error",
            SpanStatus::Unset => "unset",
        }
    }
}

/// A task of the runtime.
pub struct Task {
    pub id: String,
    pub description: String,
    pub status: TaskStatus,
    pub priority: i32,
    pub output: Option<String>,
    pub error: Option<String>,
    pub metadata: JsonMap,
    pub created_at: String,
    pub updated_at: String,
}

/// The outcome of a finished task. The elapsed time is a `Duration`.
pub struct TaskResult {
    pub id: String,
    pub status: TaskStatus,
    pub output: Option<String>,
    pub error: Option<String>,
    pub start_time: String,
    pub end_time: String,
    pub duration: Duration,
}

/// A memory record. Its relevance score is the JSON number the runtime sent
/// (zero when it sent none).
pub struct Memory {
    pub id: String,
    pub content: String,
    pub layer: MemoryLayer,
    pub score: JsonNumber,
    pub metadata: JsonMap,
    pub created_at: String,
    pub updated_at: String,
}

/// The records a memory search found.
pub struct MemorySearchResult {
    pub memories: Vec<Memory>,
    pub total: i64,
    pub query: String,
    pub top_k: i32,
}

/// A session between a user and an agent.
pub struct Session {
    pub id: String,
    pub user_id: Option<String>,
    pub status: SessionStatus,
    pub context: JsonMap,
    pub metadata: JsonMap,
    pub created_at: String,
    pub last_activity: String,
}

/// A skill of the runtime.
pub struct Skill {
    pub id: String,
    pub name: String,
    pub version: Option<String>,
    pub description: Option<String>,
    pub status: SkillStatus,
    pub parameters: JsonMap,
    pub metadata: JsonMap,
    pub created_at: String,
}

/// The outcome of running a skill.
pub struct SkillResult {
    pub success: bool,
    pub output: Option<JsonValue>,
    pub error: Option<String>,
}

/// Read-only facts about a skill.
pub struct SkillInfo {
    pub name: String,
    pub description: Option<String>,
    pub version: Option<String>,
    pub parameters: JsonMap,
}

/// Options of one request.
pub struct RequestOptions {
    pub timeout: Option<Duration>,
    pub headers: StringMap,
    pub query_params: StringMap,
}

impl RequestOptions {
    /// Options with no timeout, no headers and no query parameters.
    pub fn new() -> (r: RequestOptions)
        ensures
            r.timeout is None,
            r.headers.model().len() == 0,
            r.query_params.model().len() == 0,
    {
        RequestOptions { timeout: None, headers: StringMap::new(), query_params: StringMap::new() }
    }
}

/// One change to the options of a request.
pub enum RequestOption {
    Timeout(Duration),
    Header(String, String),
    QueryParam(String, String),
}

impl RequestOption {
    /// Applies this change to a set of request options.
    pub fn apply(&self, opts: &mut RequestOptions)
        ensures
            final(opts).timeout == (match self {
                RequestOption::Timeout(d) => Some(*d),
                _ => old(opts).timeout,
            }),
            final(opts).headers.model() == (match self {
                RequestOption::Header(k, v) => insert_entry(old(opts).headers.model(), k@, v@),
                _ => old(opts).headers.model(),
            }),
            final(opts).query_params.model() == (match self {
                RequestOption::QueryParam(k, v) => insert_entry(old(opts).query_params.model(), k@, v@),
                _ => old(opts).query_params.model(),
            }),
    {
        match self {
            RequestOption::Timeout(d) => {
                opts.timeout = Some(*d);
            },
            RequestOption::Header(k, v) => {
                opts.headers.insert(k.clone(), v.clone());
            },
            RequestOption::QueryParam(k, v) => {
                opts.query_params.insert(k.clone(), v.clone());
            },
        }
    }
}

/// Sets the timeout of a single request.
pub fn with_request_timeout(timeout: Duration) -> (r: RequestOption)
    ensures
        r == RequestOption::Timeout(timeout),
{
    RequestOption::Timeout(timeout)
}

/// Adds a request header.
pub fn with_header(key: String, value: String) -> (r: RequestOption)
    ensures
        r matches RequestOption::Header(k, v) && k@ == key@ && v@ == value@,
{
    RequestOption::Header(key, value)
}

/// Adds a query parameter.
pub fn with_query_param(key: String, value: String) -> (r: RequestOption)
    ensures
        r matches RequestOption::QueryParam(k, v) && k@ == key@ && v@ == value@,
{
    RequestOption::QueryParam(key, value)
}

/// The generic response envelope of the runtime's API.
pub struct APIResponse {
    pub success: bool,
    pub data: JsonValue,
    pub message: Option<String>,
}

/// The runtime's health report.
pub struct HealthStatus {
    pub status: String,
    pub version: String,
    pub uptime: i64,
    pub checks: StringMap,
}

/// A snapshot of the runtime's metrics. The three ratios are the JSON
/// numbers the runtime sent (zero when it sent none).
pub struct Metrics {
    pub tasks_total: i64,
    pub tasks_completed: i64,
    pub tasks_failed: i64,
    pub memories_total: i64,
    pub sessions_active: i64,
    pub skills_loaded: i64,
    pub cpu_usage: JsonNumber,
    pub memory_usage: JsonNumber,
    pub request_count: i64,
    pub average_latency_ms: JsonNumber,
}

/// Paging of a list query.
pub struct PaginationOptions {
    pub page: i32,
    pub page_size: i32,
}

/// The query parameters of a paging: `page` and `page_size`, each only
/// when positive.
pub open spec fn pagination_params(page: i32, page_size: i32) -> Seq<(Seq<char>, Seq<char>)> {
    let a = if page > 0 {
        insert_entry(Seq::empty(), "page"@, int_decimal(page as int))
    } else {
        Seq::empty()
    };
    if page_size > 0 {
        insert_entry(a, "page_size"@, int_decimal(page_size as int))
    } else {
        a
    }
}

impl PaginationOptions {
    /// The first page of twenty.
    pub fn default() -> (r: PaginationOptions)
        ensures
            r.page == 1,
            r.page_size == 20,
    {
        PaginationOptions { page: 1, page_size: 20 }
    }

    /// The paging as query parameters.
    pub fn to_query_params(&self) -> (r: StringMap)
        ensures
            r.model() == pagination_params(self.page, self.page_size),
    {
        let mut params = StringMap::new();
        if self.page > 0 {
            params.insert(owned("page"), i64_to_decimal(self.page as i64));
        }
        if self.page_size > 0 {
            params.insert(owned("page_size"), i64_to_decimal(self.page_size as i64));
        }
        params
    }
}

/// Ordering of a list query.
pub struct SortOptions {
    pub field: String,
    pub order: String,
}

/// A filter of a list query.
pub struct FilterOptions {
    pub key: String,
    pub value: JsonValue,
}

/// The options of a list query.
pub struct ListOptions {
    pub pagination: Option<PaginationOptions>,
    pub sort: Option<SortOptions>,
    pub filter: Option<FilterOptions>,
}

/// The query parameters of a list query: those of the paging, then
/// `sort_by` and `sort_order` when not empty, then `filter_key` and
/// `filter_value` (the filter value as JSON text) when the key is not empty.
pub open spec fn list_params(opts: ListOptions) -> Seq<(Seq<char>, Seq<char>)> {
    let a = match opts.pagination {
        Some(p) => pagination_params(p.page, p.page_size),
        None => Seq::empty(),
    };
    let b = match opts.sort {
        Some(s) => {
            let b1 = if s.field@.len() > 0 {
                insert_entry(a, "sort_by"@, s.field@)
            } else {
                a
            };
            if s.order@.len() > 0 {
                insert_entry(b1, "sort_order"@, s.order@)
            } else {
                b1
            }
        },
        None => a,
    };
    match opts.filter {
        Some(f) => if f.key@.len() > 0 {
            insert_entry(
                insert_entry(b, "filter_key"@, f.key@),
                "filter_value"@,
                json_text_render(f.value.model()),
            )
        } else {
            b
        },
        None => b,
    }
}

/// Every option that is set reaches the query, under its own key, and no
/// key appears for an option that is not set: the page and page size when
/// positive, the sort field and order when not empty, and the filter's key
/// and rendered value when the key is not empty.
pub proof fn law_list_params_carry_options(opts: ListOptions)
    ensures
        lookup(list_params(opts), "page"@) == (match opts.pagination {
            Some(p) => if p.page > 0 { Some(int_decimal(p.page as int)) } else { None },
            None => None,
        }),
        lookup(list_params(opts), "page_size"@) == (match opts.pagination {
            Some(p) => if p.page_size > 0 { Some(int_decimal(p.page_size as int)) } else { None },
            None => None,
        }),
        lookup(list_params(opts), "sort_by"@) == (match opts.sort {
            Some(s) => if s.field@.len() > 0 { Some(s.field@) } else { None },
            None => None,
        }),
        lookup(list_params(opts), "sort_order"@) == (match opts.sort {
            Some(s) => if s.order@.len() > 0 { Some(s.order@) } else { None },
            None => None,
        }),
        lookup(list_params(opts), "filter_key"@) == (match opts.filter {
            Some(f) => if f.key@.len() > 0 { Some(f.key@) } else { None },
            None => None,
        }),
        lookup(list_params(opts), "filter_value"@) == (match opts.filter {
            Some(f) => if f.key@.len() > 0 { Some(json_text_render(f.value.model())) } else { None },
            None => None,
        }),
{
    reveal_strlit("page");
    reveal_strlit("page_size");
    reveal_strlit("sort_by");
    reveal_strlit("sort_order");
    reveal_strlit("filter_key");
    reveal_strlit("filter_value");
    assert("page"@.len() == 4);
    assert("page_size"@.len() == 9);
    assert("sort_by"@.len() == 7);
    assert("sort_order"@.len() == 10);
    assert("filter_key"@.len() == 10);
    assert("filter_value"@.len() == 12);
    assert("page"@[0] == 'p');
    assert("page_size"@[0] == 'p');
    assert("sort_by"@[0] == 's');
    assert("sort_order"@[0] == 's');
    assert("filter_key"@[0] == 'f');
    assert("filter_value"@[0] == 'f');
    let empty = Seq::<(Seq<char>, Seq<char>)>::empty();
    let a = match opts.pagination {
        Some(p) => pagination_params(p.page, p.page_size),
        None => empty,
    };
    match opts.pagination {
        Some(p) => {
            let a0 = if p.page > 0 { insert_entry(empty, "page"@, int_decimal(p.page as int)) } else { empty };
            if p.page > 0 {
                law_insert_lookup(empty, "page"@, int_decimal(p.page as int), "page_size"@);
                law_insert_lookup(empty, "page"@, int_decimal(p.page as int), "page"@);
            }
            if p.page_size > 0 {
                law_insert_lookup(a0, "page_size"@, int_decimal(p.page_size as int), "page"@);
                law_insert_lookup(a0, "page_size"@, int_decimal(p.page_size as int), "page_size"@);
            }
        },
        None => {},
    }
    lemma_absent_keys(a, opts);
    let b = match opts.sort {
        Some(s) => {
            let b1 = if s.field@.len() > 0 { insert_entry(a, "sort_by"@, s.field@) } else { a };
            if s.field@.len() > 0 {
                law_insert_lookup(a, "sort_by"@, s.field@, "page"@);
                law_insert_lookup(a, "sort_by"@, s.field@, "page_size"@);
                law_insert_lookup(a, "sort_by"@, s.field@, "sort_order"@);
                law_insert_lookup(a, "sort_by"@, s.field@, "filter_key"@);
                law_insert_lookup(a, "sort_by"@, s.field@, "filter_value"@);
            }
            if s.order@.len() > 0 {
                law_insert_lookup(b1, "sort_order"@, s.order@, "page"@);
                law_insert_lookup(b1, "sort_order"@, s.order@, "page_size"@);
                law_insert_lookup(b1, "sort_order"@, s.order@, "sort_by"@);
                law_insert_lookup(b1, "sort_order"@, s.order@, "filter_key"@);
                law_insert_lookup(b1, "sort_order"@, s.order@, "filter_value"@);
            }
            if s.order@.len() > 0 { insert_entry(b1, "sort_order"@, s.order@) } else { b1 }
        },
        None => a,
    };
    match opts.filter {
        Some(f) => {
            if f.key@.len() > 0 {
                let v = json_text_render(f.value.model());
                let c1 = insert_entry(b, "filter_key"@, f.key@);
                law_insert_lookup(b, "filter_key"@, f.key@, "page"@);
                law_insert_lookup(b, "filter_key"@, f.key@, "page_size"@);
                law_insert_lookup(b, "filter_key"@, f.key@, "sort_by"@);
                law_insert_lookup(b, "filter_key"@, f.key@, "sort_order"@);
                law_insert_lookup(b, "filter_key"@, f.key@, "filter_value"@);
                law_insert_lookup(c1, "filter_value"@, v, "page"@);
                law_insert_lookup(c1, "filter_value"@, v, "page_size"@);
                law_insert_lookup(c1, "filter_value"@, v, "sort_by"@);
                law_insert_lookup(c1, "filter_value"@, v, "sort_order"@);
                law_insert_lookup(c1, "filter_value"@, v, "filter_key"@);
            }
        },
        None => {},
    }
}

/// A paging's parameters hold no sort or filter key.
proof fn lemma_absent_keys(a: Seq<(Seq<char>, Seq<char>)>, opts: ListOptions)
    requires
        a == (match opts.pagination {
            Some(p) => pagination_params(p.page, p.page_size),
            None => Seq::<(Seq<char>, Seq<char>)>::empty(),
        }),
    ensures
        lookup(a, "sort_by"@) is None,
        lookup(a, "sort_order"@) is None,
        lookup(a, "filter_key"@) is None,
        lookup(a, "filter_value"@) is None,
{
    reveal_strlit("page");
    reveal_strlit("page_size");
    reveal_strlit("sort_by");
    reveal_strlit("sort_order");
    reveal_strlit("filter_key");
    reveal_strlit("filter_value");
    assert("page"@.len() == 4);
    assert("page_size"@.len() == 9);
    assert("sort_by"@.len() == 7);
    assert("sort_order"@.len() == 10);
    assert("filter_key"@.len() == 10);
    assert("filter_value"@.len() == 12);
    assert("page"@[0] == 'p');
    assert("page_size"@[0] == 'p');
    assert("sort_by"@[0] == 's');
    assert("sort_order"@[0] == 's');
    assert("filter_key"@[0] == 'f');
    assert("filter_value"@[0] == 'f');
    let empty = Seq::<(Seq<char>, Seq<char>)>::empty();
    match opts.pagination {
        Some(p) => {
            let a0 = if p.page > 0 { insert_entry(empty, "page"@, int_decimal(p.page as int)) } else { empty };
            if p.page > 0 {
                law_insert_lookup(empty, "page"@, int_decimal(p.page as int), "sort_by"@);
                law_insert_lookup(empty, "page"@, int_decimal(p.page as int), "sort_order"@);
                law_insert_lookup(empty, "page"@, int_decimal(p.page as int), "filter_key"@);
                law_insert_lookup(empty, "page"@, int_decimal(p.page as int), "filter_value"@);
            }
            if p.page_size > 0 {
                law_insert_lookup(a0, "page_size"@, int_decimal(p.page_size as int), "sort_by"@);
                law_insert_lookup(a0, "page_size"@, int_decimal(p.page_size as int), "sort_order"@);
                law_insert_lookup(a0, "page_size"@, int_decimal(p.page_size as int), "filter_key"@);
                law_insert_lookup(a0, "page_size"@, int_decimal(p.page_size as int), "filter_value"@);
            }
        },
        None => {},
    }
}

impl ListOptions {
    /// No paging, ordering or filter.
    pub fn default() -> (r: ListOptions)
        ensures
            r.pagination is None,
            r.sort is None,
            r.filter is None,
    {
        ListOptions { pagination: None, sort: None, filter: None }
    }

    /// The list options as query parameters.
    pub fn to_query_params(&self) -> (r: StringMap)
        ensures
            r.model() == list_params(*self),
    {
        let mut params = match &self.pagination {
            Some(p) => p.to_query_params(),
            None => StringMap::new(),
        };
        match &self.sort {
            Some(s) => {
                if !s.field.as_str().is_empty() {
                    params.insert(owned("sort_by"), s.field.clone());
                }
                if !s.order.as_str().is_empty() {
                    params.insert(owned("sort_order"), s.order.clone());
                }
            },
            None => {},
        }
        match &self.filter {
            Some(f) => {
                if !f.key.as_str().is_empty() {
                    params.insert(owned("filter_key"), f.key.clone());
                    params.insert(owned("filter_value"), to_json_text(&f.value));
                }
            },
            None => {},
        }
        params
    }
}

} // verus!
