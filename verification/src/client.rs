//! The client's configuration and the decisions of its request cycle: the
//! builder and its validation, the URL and the options of a request, which
//! failures are retried, the request id, and the reading of the health and
//! metrics reports.

use vstd::prelude::*;
use core::time::Duration;
use crate::error::{AgentOSError, http_status_to_code};
use crate::json::{Json, JsonMap, JsonValue, JsonNumber, NumberModel, StringMap};
use crate::types::{APIResponse, HealthStatus, Metrics, RequestOption, RequestOptions};
use crate::text::{opt_string_view, concat2, concat3, has_prefix, owned, str_starts_with, string_push, u128_to_decimal, nat_decimal};
use crate::utils::{extract_data_map, get_i64, get_string, string_field, i64_field, number_field, object_field};
use vstd::string::StrSliceExecFns;

verus! {

broadcast use {vstd::std_specs::vec::group_vec_axioms, vstd::string::group_string_axioms};

/// An HTTP method the client uses.
#[derive(Debug, Clone, Copy, PartialEq, Eq, Structural)]
pub enum HttpMethod {
    Get,
    Post,
    Put,
    Delete,
}

impl HttpMethod {
    /// The method's name on the wire.
    pub open spec fn name(self) -> Seq<char> {
        match self {
            HttpMethod::Get => "GET"@,
            HttpMethod::Post => "POST"@,
            HttpMethod::Put => "PUT"@,
            HttpMethod::Delete => "DELETE"@,
        }
    }

    /// The method's name on the wire.
    pub fn as_str(&self) -> (r: &'static str)
        ensures
            r@ == self.name(),
    {
        match self {
            HttpMethod::Get => "GET",
            HttpMethod::Post => "POST",
            HttpMethod::Put => "PUT",
            HttpMethod::Delete => "DELETE",
        }
    }
}

/// A request to the runtime's API: a method, a path below the endpoint and
/// an optional JSON body.
#[derive(Debug)]
pub struct ApiRequest {
    pub method: HttpMethod,
    pub path: String,
    pub body: Option<JsonValue>,
}

/// The duration of this many seconds.
pub uninterp spec fn seconds(secs: u64) -> Duration;

/// `Duration::from_secs`: the duration of `secs` whole seconds, named by
/// `seconds`.
#[verifier::external_body]
pub(crate) fn duration_from_secs(secs: u64) -> (r: Duration)
    ensures
        r == seconds(secs),
{
    Duration::from_secs(secs)
}

/// The endpoint used when none is given and the environment names none.
pub const DEFAULT_ENDPOINT: &'static str = "http://127.0.0.1:18789";

/// The user agent the client sends unless told otherwise.
pub const DEFAULT_USER_AGENT: &'static str = "AgentRT-Rust-tools/0.1.0";

/// A text with its trailing slashes removed.
pub open spec fn trim_trailing_slashes(s: Seq<char>) -> Seq<char>
    decreases s.len(),
{
    if s.len() > 0 && s.last() == '/' {
        trim_trailing_slashes(s.drop_last())
    } else {
        s
    }
}

/// The endpoint a builder starts from: the given one without trailing
/// slashes, or, when it is empty, the one the environment names, or the
/// default endpoint.
pub open spec fn resolved_endpoint(given: Seq<char>, from_env: Option<Seq<char>>) -> Seq<char> {
    if given.len() == 0 {
        match from_env {
            Some(e) => e,
            None => DEFAULT_ENDPOINT@,
        }
    } else {
        trim_trailing_slashes(given)
    }
}

pub(crate) fn strip_trailing_slashes(s: &str) -> (r: String)
    ensures
        r@ == trim_trailing_slashes(s@),
{
    let mut n: usize = s.unicode_len();
    assert(s@.subrange(0, n as int) =~= s@);
    while n > 0 && s.get_char(n - 1) == '/'
        invariant
            n <= s@.len(),
            trim_trailing_slashes(s@) == trim_trailing_slashes(s@.subrange(0, n as int)),
        decreases n,
    {
        assert(s@.subrange(0, n as int).drop_last() =~= s@.subrange(0, n - 1));
        n = n - 1;
    }
    assert(trim_trailing_slashes(s@.subrange(0, n as int)) == s@.subrange(0, n as int));
    owned(s.substring_char(0, n))
}

/// `c` is one of the ten decimal digits.
pub open spec fn is_digit(c: char) -> bool {
    '0' <= c && c <= '9'
}

/// The value of a text of decimal digits.
pub open spec fn digits_value(s: Seq<char>) -> nat
    decreases s.len(),
{
    if s.len() == 0 {
        0
    } else {
        digits_value(s.drop_last()) * 10 + ((s.last() as int) - ('0' as int)) as nat
    }
}

/// The whole seconds a setting names: a non-empty run of decimal digits
/// whose value fits in a `u64`; `None` for any other text.
pub open spec fn seconds_setting(s: Seq<char>) -> Option<u64> {
    if s.len() > 0 && (forall|i: int| 0 <= i < s.len() ==> is_digit(#[trigger] s[i])) && digits_value(s) <= u64::MAX {
        Some(digits_value(s) as u64)
    } else {
        None
    }
}

/// The timeout in seconds a client starts with: the one the environment
/// names when it names a valid number of seconds, else thirty.
pub open spec fn timeout_setting(from_env: Option<Seq<char>>) -> u64 {
    match from_env {
        Some(t) => match seconds_setting(t) {
            Some(n) => n,
            None => 30,
        },
        None => 30,
    }
}

/// A run of digits is worth at least as much as any of its prefixes.
proof fn lemma_digits_prefix_le(s: Seq<char>, i: int)
    requires
        0 <= i <= s.len(),
        forall|k: int| 0 <= k < s.len() ==> is_digit(#[trigger] s[k]),
    ensures
        digits_value(s.subrange(0, i)) <= digits_value(s),
    decreases s.len() - i,
{
    if i < s.len() {
        lemma_digits_prefix_le(s, i + 1);
        assert(s.subrange(0, i + 1).drop_last() =~= s.subrange(0, i));
    } else {
        assert(s.subrange(0, i) =~= s);
    }
}

/// Reads a number of seconds written in decimal digits.
pub fn parse_seconds(text: &str) -> (r: Option<u64>)
    ensures
        r == seconds_setting(text@),
{
    let n = text.unicode_len();
    if n == 0 {
        return None;
    }
    let mut i: usize = 0;
    while i < n
        invariant
            i <= n,
            n == text@.len(),
            forall|k: int| 0 <= k < i ==> is_digit(#[trigger] text@[k]),
        decreases n - i,
    {
        let c = text.get_char(i);
        if !('0' <= c && c <= '9') {
            assert(!is_digit(text@[i as int]));
            return None;
        }
        i = i + 1;
    }
    let mut v: u64 = 0;
    let mut j: usize = 0;
    while j < n
        invariant
            j <= n,
            n == text@.len(),
            forall|k: int| 0 <= k < n ==> is_digit(#[trigger] text@[k]),
            v == digits_value(text@.subrange(0, j as int)),
        decreases n - j,
    {
        let c = text.get_char(j);
        let d: u64 = ((c as u32) - 48) as u64;
        assert(text@.subrange(0, j + 1).drop_last() =~= text@.subrange(0, j as int));
        assert(text@.subrange(0, j + 1).last() == c);
        if v > (u64::MAX - d) / 10 {
            proof {
                lemma_digits_prefix_le(text@, j + 1);
            }
            return None;
        }
        v = v * 10 + d;
        j = j + 1;
    }
    assert(text@.subrange(0, n as int) =~= text@);
    Some(v)
}

/// The timeout in seconds for the setting the environment gives, if any.
pub fn env_timeout_secs(from_env: Option<String>) -> (r: u64)
    ensures
        r == timeout_setting(opt_string_view(from_env)),
{
    match from_env {
        Some(t) => match parse_seconds(t.as_str()) {
            Some(n) => n,
            None => 30,
        },
        None => 30,
    }
}

/// Settings of a client, checked by `build`.
#[derive(Debug)]
pub struct ClientBuilder {
    pub endpoint: String,
    pub timeout: Duration,
    pub max_retries: u32,
    pub retry_delay: Duration,
    pub api_key: Option<String>,
    pub user_agent: String,
    pub max_connections: usize,
    pub idle_conn_timeout: Duration,
}

/// The settings of a client that passed validation.
#[derive(Debug)]
pub struct ClientConfig {
    pub endpoint: String,
    pub timeout: Duration,
    pub max_retries: u32,
    pub retry_delay: Duration,
    pub api_key: Option<String>,
    pub user_agent: String,
    pub max_connections: usize,
    pub idle_conn_timeout: Duration,
}

/// The message for an endpoint that is not an HTTP URL.
pub open spec fn bad_endpoint_msg() -> Seq<char> {
    "端点地址必须以 http:// 或 https:// 开头"@
}

impl ClientBuilder {
    /// A builder for this endpoint and the settings the environment gives:
    /// `env_endpoint`, `env_timeout` and `env_api_key` are the values of
    /// `AGENTRT_ENDPOINT`, `AGENTRT_TIMEOUT` (whole seconds) and
    /// `AGENTRT_API_KEY`, where set. The endpoint is the given one without
    /// trailing slashes, or, when it is empty, the environment's or the
    /// default one; the timeout is the environment's when it is a valid
    /// number of seconds, else thirty seconds; the API key is the
    /// environment's, if any. Three retries one second apart, the default
    /// user agent, ten connections and ninety seconds before an idle
    /// connection closes.
    pub fn with_env(
        endpoint: &str,
        env_endpoint: Option<String>,
        env_timeout: Option<String>,
        env_api_key: Option<String>,
    ) -> (r: ClientBuilder)
        ensures
            r.endpoint@ == resolved_endpoint(endpoint@, opt_string_view(env_endpoint)),
            r.timeout == seconds(timeout_setting(opt_string_view(env_timeout))),
            r.max_retries == 3,
            r.retry_delay == seconds(1),
            opt_string_view(r.api_key) == opt_string_view(env_api_key),
            r.user_agent@ == DEFAULT_USER_AGENT@,
            r.max_connections == 10,
            r.idle_conn_timeout == seconds(90),
    {
        let resolved = if endpoint.is_empty() {
            match env_endpoint {
                Some(e) => e,
                None => owned(DEFAULT_ENDPOINT),
            }
        } else {
            strip_trailing_slashes(endpoint)
        };
        ClientBuilder {
            endpoint: resolved,
            timeout: duration_from_secs(env_timeout_secs(env_timeout)),
            max_retries: 3,
            retry_delay: duration_from_secs(1),
            api_key: env_api_key,
            user_agent: owned(DEFAULT_USER_AGENT),
            max_connections: 10,
            idle_conn_timeout: duration_from_secs(90),
        }
    }

    /// A builder for this endpoint with the default settings; an empty
    /// endpoint becomes the default endpoint.
    pub fn new(endpoint: &str) -> (r: ClientBuilder)
        ensures
            r.endpoint@ == resolved_endpoint(endpoint@, None),
            r.timeout == seconds(30),
            r.max_retries == 3,
            r.retry_delay == seconds(1),
            r.api_key is None,
            r.user_agent@ == DEFAULT_USER_AGENT@,
            r.max_connections == 10,
            r.idle_conn_timeout == seconds(90),
    {
        ClientBuilder::with_env(endpoint, None, None, None)
    }

    /// Sets the request timeout.
    pub fn timeout(self, timeout: Duration) -> (r: ClientBuilder)
        ensures
            r == (ClientBuilder { timeout, ..self }),
    {
        ClientBuilder { timeout, ..self }
    }

    /// Sets the number of retries.
    pub fn max_retries(self, max_retries: u32) -> (r: ClientBuilder)
        ensures
            r == (ClientBuilder { max_retries, ..self }),
    {
        ClientBuilder { max_retries, ..self }
    }

    /// Sets the delay before the first retry.
    pub fn retry_delay(self, retry_delay: Duration) -> (r: ClientBuilder)
        ensures
            r == (ClientBuilder { retry_delay, ..self }),
    {
        ClientBuilder { retry_delay, ..self }
    }

    /// Sets the API key.
    pub fn api_key(self, api_key: &str) -> (r: ClientBuilder)
        ensures
            r.api_key matches Some(k) && k@ == api_key@,
            r == (ClientBuilder { api_key: r.api_key, ..self }),
    {
        ClientBuilder { api_key: Some(owned(api_key)), ..self }
    }

    /// Sets the user agent.
    pub fn user_agent(self, user_agent: &str) -> (r: ClientBuilder)
        ensures
            r.user_agent@ == user_agent@,
            r == (ClientBuilder { user_agent: r.user_agent, ..self }),
    {
        ClientBuilder { user_agent: owned(user_agent), ..self }
    }

    /// Sets the largest number of idle connections kept per host.
    pub fn max_connections(self, max_connections: usize) -> (r: ClientBuilder)
        ensures
            r == (ClientBuilder { max_connections, ..self }),
    {
        ClientBuilder { max_connections, ..self }
    }

    /// Sets how long an idle connection is kept.
    pub fn idle_conn_timeout(self, idle_conn_timeout: Duration) -> (r: ClientBuilder)
        ensures
            r == (ClientBuilder { idle_conn_timeout, ..self }),
    {
        ClientBuilder { idle_conn_timeout, ..self }
    }

    /// Checks the settings: the endpoint must be an `http://` or `https://`
    /// URL, else a configuration error.
    pub fn build(self) -> (r: Result<ClientConfig, AgentOSError>)
        ensures
            has_prefix(self.endpoint@, "http://"@) || has_prefix(self.endpoint@, "https://"@) ==> r
                == Ok::<ClientConfig, AgentOSError>(ClientConfig {
                endpoint: self.endpoint,
                timeout: self.timeout,
                max_retries: self.max_retries,
                retry_delay: self.retry_delay,
                api_key: self.api_key,
                user_agent: self.user_agent,
                max_connections: self.max_connections,
                idle_conn_timeout: self.idle_conn_timeout,
            }),
            !(has_prefix(self.endpoint@, "http://"@) || has_prefix(self.endpoint@, "https://"@)) ==> (r matches Err(
                AgentOSError::Config(m),
            ) && m@ == bad_endpoint_msg()),
    {
        if !str_starts_with(self.endpoint.as_str(), "http://") && !str_starts_with(self.endpoint.as_str(), "https://") {
            return Err(AgentOSError::config("端点地址必须以 http:// 或 https:// 开头"));
        }
        Ok(ClientConfig {
            endpoint: self.endpoint,
            timeout: self.timeout,
            max_retries: self.max_retries,
            retry_delay: self.retry_delay,
            api_key: self.api_key,
            user_agent: self.user_agent,
            max_connections: self.max_connections,
            idle_conn_timeout: self.idle_conn_timeout,
        })
    }
}

impl ClientConfig {
    /// The endpoint.
    pub fn endpoint(&self) -> (r: &str)
        ensures
            r@ == self.endpoint@,
    {
        self.endpoint.as_str()
    }

    /// The API key, if any.
    pub fn api_key(&self) -> (r: Option<&str>)
        ensures
            match self.api_key {
                Some(k) => r matches Some(x) && x@ == k@,
                None => r is None,
            },
    {
        match &self.api_key {
            Some(k) => Some(k.as_str()),
            None => None,
        }
    }
}


/// Whether a failed status is worth retrying: a server error or "too many
/// requests".
pub open spec fn retryable_status(status: u16) -> bool {
    (500 <= status <= 599) || status == 429
}

/// Whether a request that got this status should be retried.
pub fn should_retry(status: u16) -> (r: bool)
    ensures
        r == retryable_status(status),
{
    (500 <= status && status <= 599) || status == 429
}

/// The options that result from applying changes in order to empty options.
pub open spec fn applied_options(changes: Seq<RequestOption>) -> (Option<Duration>, Seq<(Seq<char>, Seq<char>)>, Seq<(Seq<char>, Seq<char>)>)
    decreases changes.len(),
{
    if changes.len() == 0 {
        (None, Seq::empty(), Seq::empty())
    } else {
        let (t, h, q) = applied_options(changes.drop_last());
        match changes.last() {
            RequestOption::Timeout(d) => (Some(d), h, q),
            RequestOption::Header(k, v) => (t, crate::json::insert_entry(h, k@, v@), q),
            RequestOption::QueryParam(k, v) => (t, h, crate::json::insert_entry(q, k@, v@)),
        }
    }
}

/// Applies the changes, in order, to empty request options.
pub fn resolve_options(changes: &Vec<RequestOption>) -> (r: RequestOptions)
    ensures
        (r.timeout, r.headers.model(), r.query_params.model()) == applied_options(changes@),
{
    let mut opts = RequestOptions::new();
    let mut i: usize = 0;
    while i < changes.len()
        invariant
            i <= changes.len(),
            (opts.timeout, opts.headers.model(), opts.query_params.model()) == applied_options(changes@.take(i as int)),
        decreases changes.len() - i,
    {
        assert(changes@.take(i + 1).drop_last() =~= changes@.take(i as int));
        changes[i].apply(&mut opts);
        i = i + 1;
    }
    assert(changes@.take(changes.len() as int) =~= changes@);
    opts
}

/// The query string of a request: the pairs `key=value`, as given, joined
/// by `&`.
pub open spec fn raw_query(params: Seq<(Seq<char>, Seq<char>)>) -> Seq<char>
    decreases params.len(),
{
    if params.len() == 0 {
        Seq::empty()
    } else if params.len() == 1 {
        params[0].0 + "="@ + params[0].1
    } else {
        raw_query(params.drop_last()) + "&"@ + params.last().0 + "="@ + params.last().1
    }
}

/// The URL of a request: the endpoint, the path, and the query string when
/// there are query parameters.
pub open spec fn request_url_spec(endpoint: Seq<char>, path: Seq<char>, params: Seq<(Seq<char>, Seq<char>)>) -> Seq<char> {
    if params.len() == 0 {
        endpoint + path
    } else {
        endpoint + path + "?"@ + raw_query(params)
    }
}

/// The URL of a request to `path` with these options.
pub fn request_url(endpoint: &str, path: &str, options: &RequestOptions) -> (r: String)
    ensures
        r@ == request_url_spec(endpoint@, path@, options.query_params.model()),
{
    let mut url = concat2(endpoint, path);
    if options.query_params.is_empty() {
        return url;
    }
    let ghost m = options.query_params.model();
    let mut query = String::new();
    let mut i: usize = 0;
    while i < options.query_params.entries.len()
        invariant
            i <= options.query_params.entries.len(),
            m == options.query_params.model(),
            query@ == raw_query(m.take(i as int)),
        decreases options.query_params.entries.len() - i,
    {
        assert(m.take(i + 1).drop_last() =~= m.take(i as int));
        let entry = &options.query_params.entries[i];
        if i > 0 {
            query.append("&");
        }
        query.append(entry.0.as_str());
        query.append("=");
        query.append(entry.1.as_str());
        proof {
            if i == 0 {
                assert(m.take(1) =~= seq![m[0]]);
            }
        }
        i = i + 1;
    }
    assert(m.take(m.len() as int) =~= m);
    url.append("?");
    url.append(query.as_str());
    url
}

/// The headers of a request, in the order they are set: the content type,
/// the user agent, the request id, the bearer token when there is an API
/// key, and then the request's own headers.
pub open spec fn request_headers_spec(
    user_agent: Seq<char>,
    request_id: Seq<char>,
    api_key: Option<Seq<char>>,
    extra: Seq<(Seq<char>, Seq<char>)>,
) -> Seq<(Seq<char>, Seq<char>)> {
    let base = seq![
        ("Content-Type"@, "application/json"@),
        ("User-Agent"@, user_agent),
        ("X-Request-ID"@, request_id),
    ];
    let auth = match api_key {
        Some(k) => seq![("Authorization"@, "Bearer "@ + k)],
        None => Seq::empty(),
    };
    base + auth + extra
}

/// The headers a request is sent with.
pub fn request_headers(config: &ClientConfig, request_id: &str, options: &RequestOptions) -> (r: Vec<(String, String)>)
    ensures
        r@.map_values(|e: (String, String)| (e.0@, e.1@)) == request_headers_spec(
            config.user_agent@,
            request_id@,
            opt_string_view(config.api_key),
            options.headers.model(),
        ),
{
    let ghost key = opt_string_view(config.api_key);
    let ghost prefix = request_headers_spec(config.user_agent@, request_id@, key, Seq::empty());
    let mut out: Vec<(String, String)> = Vec::new();
    out.push((owned("Content-Type"), owned("application/json")));
    out.push((owned("User-Agent"), owned(config.user_agent.as_str())));
    out.push((owned("X-Request-ID"), owned(request_id)));
    match &config.api_key {
        Some(k) => {
            out.push((owned("Authorization"), concat2("Bearer ", k.as_str())));
        },
        None => {},
    }
    assert(out@.map_values(|e: (String, String)| (e.0@, e.1@)) =~= prefix);
    let ghost extra = options.headers.model();
    let mut i: usize = 0;
    while i < options.headers.entries.len()
        invariant
            i <= options.headers.entries.len(),
            extra == options.headers.model(),
            out@.map_values(|e: (String, String)| (e.0@, e.1@)) == prefix + extra.take(i as int),
        decreases options.headers.entries.len() - i,
    {
        let ghost before = out@;
        let entry = &options.headers.entries[i];
        assert(extra[i as int] == (entry.0@, entry.1@));
        out.push((owned(entry.0.as_str()), owned(entry.1.as_str())));
        assert(out@.map_values(|e: (String, String)| (e.0@, e.1@)) =~= before.map_values(|e: (String, String)| (e.0@, e.1@)).push(extra[i as int]));
        assert(extra.take(i + 1) =~= extra.take(i as int).push(extra[i as int]));
        assert(out@.map_values(|e: (String, String)| (e.0@, e.1@)) =~= prefix + extra.take(i + 1));
        i = i + 1;
    }
    assert(extra.take(extra.len() as int) =~= extra);
    assert(request_headers_spec(config.user_agent@, request_id@, key, extra) =~= prefix + extra);
    out
}

/// A failed attempt at a request: an answer with a status that is not a
/// success, or no answer at all (timed out, not connected, or another
/// transport failure, with its description).
#[derive(Debug)]
pub enum AttemptFailure {
    Status { status: u16, body: String },
    Transport { timeout: bool, connect: bool, detail: String },
}

/// What a failed attempt means: the error it gives, and whether the request
/// is tried again.
#[derive(Debug)]
pub struct AttemptVerdict {
    pub error: AgentOSError,
    pub retry: bool,
}

/// The verdict on a failed attempt: a failed status gives the error of its
/// code with the body as message, retried for server errors and "too many
/// requests"; a timeout or a refused connection gives a timeout or
/// connection error and is retried; any other transport failure gives a
/// network error and is not.
pub open spec fn verdict_matches(f: AttemptFailure, v: AttemptVerdict) -> bool {
    match f {
        AttemptFailure::Status { status, body } => {
            &&& v.error matches AgentOSError::WithCode { code, message } && code@ == crate::error::status_code_spec(status)
                && message@ == body@
            &&& v.retry == retryable_status(status)
        },
        AttemptFailure::Transport { timeout, connect, detail } => {
            &&& v.retry == (timeout || connect)
            &&& if timeout {
                v.error matches AgentOSError::Timeout(m) && m@ == "请求超时: "@ + detail@
            } else if connect {
                v.error matches AgentOSError::ConnectionRefused(m) && m@ == "连接被拒绝: "@ + detail@
            } else {
                v.error matches AgentOSError::Network(m) && m@ == "网络错误: "@ + detail@
            }
        },
    }
}

/// Judges a failed attempt.
pub fn judge_failure(failure: AttemptFailure) -> (r: AttemptVerdict)
    ensures
        verdict_matches(failure, r),
{
    match failure {
        AttemptFailure::Status { status, body } => {
            let code = http_status_to_code(status);
            AttemptVerdict { error: AgentOSError::with_code(code, body.as_str()), retry: should_retry(status) }
        },
        AttemptFailure::Transport { timeout, connect, detail } => {
            if timeout {
                AttemptVerdict {
                    error: AgentOSError::timeout(concat2("请求超时: ", detail.as_str()).as_str()),
                    retry: true,
                }
            } else if connect {
                AttemptVerdict {
                    error: AgentOSError::connection_refused(concat2("连接被拒绝: ", detail.as_str()).as_str()),
                    retry: true,
                }
            } else {
                AttemptVerdict {
                    error: AgentOSError::network(concat2("网络错误: ", detail.as_str()).as_str()),
                    retry: false,
                }
            }
        },
    }
}

/// What the request cycle does after a failed attempt: try again, or end
/// with an error.
#[derive(Debug)]
pub enum AttemptStep {
    Retry,
    Fail(AgentOSError),
}

/// The step after the failed attempt number `attempt` (counted from zero)
/// of a request allowed `max_retries` retries: the request is tried again
/// when the verdict on the failure says so and retries are left; otherwise
/// it ends with the verdict's error, which, when the retries are used up, is
/// the error of this last attempt.
pub open spec fn step_matches(attempt: int, max_retries: u32, failure: AttemptFailure, step: AttemptStep) -> bool {
    exists|v: AttemptVerdict|
        #[trigger] verdict_matches(failure, v) && match step {
            AttemptStep::Retry => v.retry && attempt < max_retries,
            AttemptStep::Fail(e) => !(v.retry && attempt < max_retries) && e == v.error,
        }
}

/// Decides what follows the failed attempt number `attempt` of a request
/// allowed `max_retries` retries.
pub fn next_step(attempt: u32, max_retries: u32, failure: AttemptFailure) -> (r: AttemptStep)
    ensures
        step_matches(attempt as int, max_retries, failure, r),
{
    let verdict = judge_failure(failure);
    let ghost judged = verdict;
    if verdict.retry && attempt < max_retries {
        AttemptStep::Retry
    } else {
        let r = AttemptStep::Fail(verdict.error);
        assert(verdict_matches(failure, judged));
        r
    }
}

/// The failure is one the request cycle tries again after: a server error
/// or "too many requests", a timeout or a refused connection.
pub open spec fn is_retried(failure: AttemptFailure) -> bool {
    match failure {
        AttemptFailure::Status { status, body } => retryable_status(status),
        AttemptFailure::Transport { timeout, connect, detail } => timeout || connect,
    }
}

/// A request makes at most `max_retries + 1` attempts: in a run of the
/// request cycle, where every step but the last is a retry, the number of
/// failed attempts never exceeds it; and a run that ends on a failure that
/// would be retried has made exactly that many attempts.
pub proof fn law_request_attempts_bounded(max_retries: u32, failures: Seq<AttemptFailure>, steps: Seq<AttemptStep>)
    requires
        steps.len() == failures.len(),
        forall|i: int| 0 <= i < steps.len() ==> step_matches(i, max_retries, #[trigger] failures[i], steps[i]),
        forall|i: int| 0 <= i < steps.len() - 1 ==> #[trigger] steps[i] is Retry,
    ensures
        steps.len() <= max_retries + 1,
        steps.len() > 0 && steps.last() is Fail && is_retried(failures.last()) ==> steps.len() == max_retries + 1,
{
    if steps.len() > max_retries + 1 {
        let k = max_retries as int;
        assert(steps[k] is Retry);
        assert(step_matches(k, max_retries, failures[k], steps[k]));
    }
    if steps.len() > 0 {
        let n = steps.len() - 1;
        assert(step_matches(n, max_retries, failures[n], steps[n]));
    }
}

/// The nanoseconds since the Unix epoch by the system clock (`SystemTime`),
/// or zero when the clock is set before the epoch. Nothing is stated of the
/// value: it depends on the clock.
#[verifier::external_body]
pub(crate) fn unix_nanos() -> (r: u128) {
    std::time::SystemTime::now().duration_since(std::time::UNIX_EPOCH).map(|d| d.as_nanos()).unwrap_or(0)
}

/// A random number below `bound`, from rand's thread-local generator
/// (`Rng::gen_range` over `0..bound`). Stated: it is below the bound.
#[verifier::external_body]
fn random_below(bound: u32) -> (r: u32)
    requires
        bound > 0,
    ensures
        r < bound,
{
    rand::Rng::gen_range(&mut rand::thread_rng(), 0..bound)
}

/// Decimal digits padded on the left with zeros to six places.
pub open spec fn zero_pad6(d: Seq<char>) -> Seq<char> {
    if d.len() >= 6 {
        d
    } else {
        Seq::new((6 - d.len()) as nat, |i: int| '0') + d
    }
}

/// A request id: `req-`, a time in microseconds, `-`, and a random number
/// in six digits.
pub open spec fn request_id_text(micros: nat, random: nat) -> Seq<char> {
    "req-"@ + nat_decimal(micros) + "-"@ + zero_pad6(nat_decimal(random))
}

/// The request id of this time and random number.
pub fn format_request_id(micros: u128, random: u32) -> (r: String)
    ensures
        r@ == request_id_text(micros as nat, random as nat),
{
    let digits = u128_to_decimal(random as u128);
    let n: usize = digits.as_str().unicode_len();
    let mut padded = String::new();
    let mut k: usize = n;
    while k < 6
        invariant
            n <= k <= 6 || (n > 6 && k == n),
            n == digits@.len(),
            padded@ == Seq::new((k - n) as nat, |i: int| '0'),
        decreases 6 - k,
    {
        string_push(&mut padded, '0');
        assert(padded@ =~= Seq::new((k + 1 - n) as nat, |i: int| '0'));
        k = k + 1;
    }
    padded.append(digits.as_str());
    assert(padded@ =~= zero_pad6(digits@));
    let mut id = concat2("req-", u128_to_decimal(micros).as_str());
    id.append("-");
    id.append(padded.as_str());
    id
}

/// A fresh request id, from the clock and a random number below 999999.
pub fn generate_request_id() -> (r: String)
    ensures
        exists|micros: nat, random: nat| random < 999999 && r@ == #[trigger] request_id_text(micros, random),
{
    let micros = unix_nanos() / 1000;
    let random = random_below(999999);
    let r = format_request_id(micros, random);
    assert(r@ == request_id_text(micros as nat, random as nat));
    r
}

/// The string at `key`, or the default.
pub open spec fn string_or(m: Seq<(Seq<char>, Json)>, key: Seq<char>, default: Seq<char>) -> Seq<char> {
    match crate::json::lookup(m, key) {
        Some(Json::Str(s)) => s,
        _ => default,
    }
}

/// The members of an object, each value read as a string, or as the empty
/// string when it is not one.
pub open spec fn check_entries(o: Seq<(Seq<char>, Json)>) -> Seq<(Seq<char>, Seq<char>)> {
    o.map_values(|e: (Seq<char>, Json)| (e.0, match e.1 {
        Json::Str(s) => s,
        _ => Seq::empty(),
    }))
}

fn string_or_exec(data: &JsonMap, key: &str, default: &str) -> (r: String)
    ensures
        r@ == string_or(data.model(), key@, default@),
{
    match data.get(key) {
        Some(v) => match v.as_str() {
            Some(s) => owned(s),
            None => owned(default),
        },
        None => owned(default),
    }
}

/// Reads the runtime's health report from a response: the status and the
/// version (each "unknown" when absent), the uptime (zero when absent) and
/// the checks, each read as a string. The data must be an object.
pub fn parse_health(resp: &APIResponse) -> (r: Result<HealthStatus, AgentOSError>)
    ensures
        match resp.data.model() {
            Json::Object(m) => r matches Ok(h) && h.status@ == string_or(m, "status"@, "unknown"@)
                && h.version@ == string_or(m, "version"@, "unknown"@) && h.uptime == i64_field(m, "uptime"@)
                && h.checks.model() == check_entries(object_field(m, "checks"@)),
            _ => r matches Err(AgentOSError::InvalidResponse(msg)) && msg@ == "健康检查响应格式异常"@,
        },
{
    let data = match resp.data.as_object() {
        Some(d) => d,
        None => {
            return Err(AgentOSError::invalid_response("健康检查响应格式异常"));
        },
    };
    let checks_obj = crate::utils::get_map(data, "checks");
    let ghost o = checks_obj.model();
    let mut checks = StringMap::new();
    let mut i: usize = 0;
    while i < checks_obj.entries.len()
        invariant
            i <= checks_obj.entries.len(),
            o == checks_obj.model(),
            checks.model() == check_entries(o.take(i as int)),
        decreases checks_obj.entries.len() - i,
    {
        let entry = &checks_obj.entries[i];
        let value = match entry.1.as_str() {
            Some(s) => owned(s),
            None => String::new(),
        };
        let ghost before = checks.model();
        checks.entries.push((owned(entry.0.as_str()), value));
        assert(checks.model() =~= before.push((o[i as int].0, match o[i as int].1 {
            Json::Str(s) => s,
            _ => Seq::empty(),
        })));
        assert(check_entries(o.take(i + 1)) =~= check_entries(o.take(i as int)).push((o[i as int].0, match o[i as int].1 {
            Json::Str(s) => s,
            _ => Seq::empty(),
        })));
        i = i + 1;
    }
    assert(o.take(o.len() as int) =~= o);
    Ok(HealthStatus {
        status: string_or_exec(data, "status", "unknown"),
        version: string_or_exec(data, "version", "unknown"),
        uptime: get_i64(data, "uptime"),
        checks,
    })
}

/// Reads the runtime's metrics from a response: each count is the integer
/// at its key and each ratio the number at its key, zero when absent. The
/// data must be an object.
pub fn parse_metrics(resp: &APIResponse) -> (r: Result<Metrics, AgentOSError>)
    ensures
        match resp.data.model() {
            Json::Object(m) => r matches Ok(x) && x.tasks_total == i64_field(m, "tasks_total"@)
                && x.tasks_completed == i64_field(m, "tasks_completed"@)
                && x.tasks_failed == i64_field(m, "tasks_failed"@)
                && x.memories_total == i64_field(m, "memories_total"@)
                && x.sessions_active == i64_field(m, "sessions_active"@)
                && x.skills_loaded == i64_field(m, "skills_loaded"@)
                && x.cpu_usage.model() == number_field(m, "cpu_usage"@)
                && x.memory_usage.model() == number_field(m, "memory_usage"@)
                && x.request_count == i64_field(m, "request_count"@)
                && x.average_latency_ms.model() == number_field(m, "average_latency_ms"@),
            _ => r matches Err(AgentOSError::InvalidResponse(msg)) && msg@ == "指标响应格式异常"@,
        },
{
    let data = match resp.data.as_object() {
        Some(d) => d,
        None => {
            return Err(AgentOSError::invalid_response("指标响应格式异常"));
        },
    };
    Ok(Metrics {
        tasks_total: get_i64(data, "tasks_total"),
        tasks_completed: get_i64(data, "tasks_completed"),
        tasks_failed: get_i64(data, "tasks_failed"),
        memories_total: get_i64(data, "memories_total"),
        sessions_active: get_i64(data, "sessions_active"),
        skills_loaded: get_i64(data, "skills_loaded"),
        cpu_usage: crate::utils::get_f64(data, "cpu_usage"),
        memory_usage: crate::utils::get_f64(data, "memory_usage"),
        request_count: get_i64(data, "request_count"),
        average_latency_ms: crate::utils::get_f64(data, "average_latency_ms"),
    })
}

} // verus!
