//! The SDK's error type, its hexadecimal error codes, and the mapping from
//! HTTP status codes to errors.
//!
//! Codes are grouped by their leading hex digit:
//! `0x0xxx` general, `0x1xxx` core loop, `0x2xxx` cognition, `0x3xxx`
//! execution, `0x4xxx` memory, `0x5xxx` syscall, `0x6xxx` security.

use vstd::prelude::*;
use crate::text::owned;

verus! {

broadcast use vstd::string::group_string_axioms;

/// General error codes (0x0xxx).
pub const CODE_SUCCESS: &'static str = "0x0000";
pub const CODE_UNKNOWN: &'static str = "0x0001";
pub const CODE_INVALID_PARAMETER: &'static str = "0x0002";
pub const CODE_MISSING_PARAMETER: &'static str = "0x0003";
pub const CODE_TIMEOUT: &'static str = "0x0004";
pub const CODE_NOT_FOUND: &'static str = "0x0005";
pub const CODE_ALREADY_EXISTS: &'static str = "0x0006";
pub const CODE_CONFLICT: &'static str = "0x0007";
pub const CODE_INVALID_CONFIG: &'static str = "0x0008";
pub const CODE_INVALID_ENDPOINT: &'static str = "0x0009";
pub const CODE_NETWORK_ERROR: &'static str = "0x000A";
pub const CODE_CONNECTION_REFUSED: &'static str = "0x000B";
pub const CODE_SERVER_ERROR: &'static str = "0x000C";
pub const CODE_UNAUTHORIZED: &'static str = "0x000D";
pub const CODE_FORBIDDEN: &'static str = "0x000E";
pub const CODE_RATE_LIMITED: &'static str = "0x000F";
pub const CODE_INVALID_RESPONSE: &'static str = "0x0010";
pub const CODE_PARSE_ERROR: &'static str = "0x0011";
pub const CODE_VALIDATION_ERROR: &'static str = "0x0012";
pub const CODE_NOT_SUPPORTED: &'static str = "0x0013";
pub const CODE_INTERNAL: &'static str = "0x0014";
pub const CODE_BUSY: &'static str = "0x0015";

/// Core loop error codes (0x1xxx).
pub const CODE_LOOP_CREATE_FAILED: &'static str = "0x1001";
pub const CODE_LOOP_START_FAILED: &'static str = "0x1002";
pub const CODE_LOOP_STOP_FAILED: &'static str = "0x1003";

/// Cognition layer error codes (0x2xxx).
pub const CODE_COGNITION_FAILED: &'static str = "0x2001";
pub const CODE_DAG_BUILD_FAILED: &'static str = "0x2002";
pub const CODE_AGENT_DISPATCH_FAILED: &'static str = "0x2003";
pub const CODE_INTENT_PARSE_FAILED: &'static str = "0x2004";

/// Execution layer error codes (0x3xxx).
pub const CODE_TASK_FAILED: &'static str = "0x3001";
pub const CODE_TASK_CANCELLED: &'static str = "0x3002";
pub const CODE_TASK_TIMEOUT: &'static str = "0x3003";

/// Memory layer error codes (0x4xxx).
pub const CODE_MEMORY_NOT_FOUND: &'static str = "0x4001";
pub const CODE_MEMORY_EVOLVE_FAILED: &'static str = "0x4002";
pub const CODE_MEMORY_SEARCH_FAILED: &'static str = "0x4003";
pub const CODE_SESSION_NOT_FOUND: &'static str = "0x4004";
pub const CODE_SESSION_EXPIRED: &'static str = "0x4005";
pub const CODE_SKILL_NOT_FOUND: &'static str = "0x4006";
pub const CODE_SKILL_EXECUTION_FAILED: &'static str = "0x4007";

/// Syscall error codes (0x5xxx).
pub const CODE_TELEMETRY_ERROR: &'static str = "0x5001";
pub const CODE_SYSCALL_ERROR: &'static str = "0x5002";

/// Security domain error codes (0x6xxx).
pub const CODE_PERMISSION_DENIED: &'static str = "0x6001";
pub const CODE_CORRUPTED_DATA: &'static str = "0x6002";

/// An SDK error code.
pub type ErrorCode = &'static str;

/// The single error type of the SDK. Each variant but `WithCode` carries a
/// fixed error code; `WithCode` carries its code explicitly.
#[derive(Debug, Clone)]
pub enum AgentOSError {
    WithCode { code: String, message: String },
    Network(String),
    Http(String),
    Json(String),
    Task(String),
    Memory(String),
    Session(String),
    Skill(String),
    Timeout(String),
    InvalidResponse(String),
    Config(String),
    ConnectionRefused(String),
    Unauthorized(String),
    Forbidden(String),
    NotFound(String),
    InvalidParameter(String),
    MissingParameter(String),
    SyscallError(String),
    Other(String),
}

impl AgentOSError {
    /// The error code an error reports.
    pub open spec fn code_spec(&self) -> Seq<char> {
        match self {
            AgentOSError::WithCode { code, .. } => code@,
            AgentOSError::Network(_) => CODE_NETWORK_ERROR@,
            AgentOSError::Http(_) => CODE_SERVER_ERROR@,
            AgentOSError::Json(_) => CODE_PARSE_ERROR@,
            AgentOSError::Task(_) => CODE_TASK_FAILED@,
            AgentOSError::Memory(_) => CODE_MEMORY_NOT_FOUND@,
            AgentOSError::Session(_) => CODE_SESSION_NOT_FOUND@,
            AgentOSError::Skill(_) => CODE_SKILL_NOT_FOUND@,
            AgentOSError::Timeout(_) => CODE_TIMEOUT@,
            AgentOSError::InvalidResponse(_) => CODE_INVALID_RESPONSE@,
            AgentOSError::Config(_) => CODE_INVALID_CONFIG@,
            AgentOSError::ConnectionRefused(_) => CODE_CONNECTION_REFUSED@,
            AgentOSError::Unauthorized(_) => CODE_UNAUTHORIZED@,
            AgentOSError::Forbidden(_) => CODE_FORBIDDEN@,
            AgentOSError::NotFound(_) => CODE_NOT_FOUND@,
            AgentOSError::InvalidParameter(_) => CODE_INVALID_PARAMETER@,
            AgentOSError::MissingParameter(_) => CODE_MISSING_PARAMETER@,
            AgentOSError::SyscallError(_) => CODE_SYSCALL_ERROR@,
            AgentOSError::Other(_) => CODE_UNKNOWN@,
        }
    }

    /// Each error kind with a fixed code reports the code of its own domain:
    /// network 0x000A, HTTP 0x000C, JSON 0x0011, task 0x3001, memory 0x4001,
    /// session 0x4004, skill 0x4006, timeout 0x0004, invalid response
    /// 0x0010, configuration 0x0008, refused connection 0x000B,
    /// unauthorized 0x000D, forbidden 0x000E, not found 0x0005, invalid
    /// parameter 0x0002, missing parameter 0x0003, system call 0x5002 and
    /// any other 0x0001; an error with an explicit code reports that code.
    pub proof fn law_error_kind_codes(m: String, c: String)
        ensures
            AgentOSError::Network(m).code_spec() == "0x000A"@,
            AgentOSError::Http(m).code_spec() == "0x000C"@,
            AgentOSError::Json(m).code_spec() == "0x0011"@,
            AgentOSError::Task(m).code_spec() == "0x3001"@,
            AgentOSError::Memory(m).code_spec() == "0x4001"@,
            AgentOSError::Session(m).code_spec() == "0x4004"@,
            AgentOSError::Skill(m).code_spec() == "0x4006"@,
            AgentOSError::Timeout(m).code_spec() == "0x0004"@,
            AgentOSError::InvalidResponse(m).code_spec() == "0x0010"@,
            AgentOSError::Config(m).code_spec() == "0x0008"@,
            AgentOSError::ConnectionRefused(m).code_spec() == "0x000B"@,
            AgentOSError::Unauthorized(m).code_spec() == "0x000D"@,
            AgentOSError::Forbidden(m).code_spec() == "0x000E"@,
            AgentOSError::NotFound(m).code_spec() == "0x0005"@,
            AgentOSError::InvalidParameter(m).code_spec() == "0x0002"@,
            AgentOSError::MissingParameter(m).code_spec() == "0x0003"@,
            AgentOSError::SyscallError(m).code_spec() == "0x5002"@,
            AgentOSError::Other(m).code_spec() == "0x0001"@,
            (AgentOSError::WithCode { code: c, message: m }).code_spec() == c@,
    {
    }

    /// The message an error carries.
    pub open spec fn message_spec(&self) -> Seq<char> {
        match self {
            AgentOSError::WithCode { message, .. } => message@,
            AgentOSError::Network(m) => m@,
            AgentOSError::Http(m) => m@,
            AgentOSError::Json(m) => m@,
            AgentOSError::Task(m) => m@,
            AgentOSError::Memory(m) => m@,
            AgentOSError::Session(m) => m@,
            AgentOSError::Skill(m) => m@,
            AgentOSError::Timeout(m) => m@,
            AgentOSError::InvalidResponse(m) => m@,
            AgentOSError::Config(m) => m@,
            AgentOSError::ConnectionRefused(m) => m@,
            AgentOSError::Unauthorized(m) => m@,
            AgentOSError::Forbidden(m) => m@,
            AgentOSError::NotFound(m) => m@,
            AgentOSError::InvalidParameter(m) => m@,
            AgentOSError::MissingParameter(m) => m@,
            AgentOSError::SyscallError(m) => m@,
            AgentOSError::Other(m) => m@,
        }
    }

    /// The error is one of the network-related kinds.
    pub open spec fn is_network_spec(&self) -> bool {
        self is Network || self is Timeout || self is ConnectionRefused
    }

    /// The error is one of the server-side kinds.
    pub open spec fn is_server_spec(&self) -> bool {
        self is Http || self is Task || self is Skill
    }

    /// An error with an explicit code.
    pub fn with_code(code: &str, message: &str) -> (r: Self)
        ensures
            r matches AgentOSError::WithCode { code: c, message: m } && c@ == code@ && m@
                == message@,
    {
        AgentOSError::WithCode { code: owned(code), message: owned(message) }
    }

    /// A network error.
    pub fn network(message: &str) -> (r: Self)
        ensures
            r matches AgentOSError::Network(m) && m@ == message@,
    {
        AgentOSError::Network(owned(message))
    }

    /// An HTTP (server) error.
    pub fn http(message: &str) -> (r: Self)
        ensures
            r matches AgentOSError::Http(m) && m@ == message@,
    {
        AgentOSError::Http(owned(message))
    }

    /// A JSON error.
    pub fn json(message: &str) -> (r: Self)
        ensures
            r matches AgentOSError::Json(m) && m@ == message@,
    {
        AgentOSError::Json(owned(message))
    }

    /// A task error.
    pub fn task(message: &str) -> (r: Self)
        ensures
            r matches AgentOSError::Task(m) && m@ == message@,
    {
        AgentOSError::Task(owned(message))
    }

    /// A memory error.
    pub fn memory(message: &str) -> (r: Self)
        ensures
            r matches AgentOSError::Memory(m) && m@ == message@,
    {
        AgentOSError::Memory(owned(message))
    }

    /// A session error.
    pub fn session(message: &str) -> (r: Self)
        ensures
            r matches AgentOSError::Session(m) && m@ == message@,
    {
        AgentOSError::Session(owned(message))
    }

    /// A skill error.
    pub fn skill(message: &str) -> (r: Self)
        ensures
            r matches AgentOSError::Skill(m) && m@ == message@,
    {
        AgentOSError::Skill(owned(message))
    }

    /// A timeout error.
    pub fn timeout(message: &str) -> (r: Self)
        ensures
            r matches AgentOSError::Timeout(m) && m@ == message@,
    {
        AgentOSError::Timeout(owned(message))
    }

    /// An invalid-response error.
    pub fn invalid_response(message: &str) -> (r: Self)
        ensures
            r matches AgentOSError::InvalidResponse(m) && m@ == message@,
    {
        AgentOSError::InvalidResponse(owned(message))
    }

    /// A configuration error.
    pub fn config(message: &str) -> (r: Self)
        ensures
            r matches AgentOSError::Config(m) && m@ == message@,
    {
        AgentOSError::Config(owned(message))
    }

    /// A connection-refused error.
    pub fn connection_refused(message: &str) -> (r: Self)
        ensures
            r matches AgentOSError::ConnectionRefused(m) && m@ == message@,
    {
        AgentOSError::ConnectionRefused(owned(message))
    }

    /// An unauthorized error.
    pub fn unauthorized(message: &str) -> (r: Self)
        ensures
            r matches AgentOSError::Unauthorized(m) && m@ == message@,
    {
        AgentOSError::Unauthorized(owned(message))
    }

    /// A forbidden error.
    pub fn forbidden(message: &str) -> (r: Self)
        ensures
            r matches AgentOSError::Forbidden(m) && m@ == message@,
    {
        AgentOSError::Forbidden(owned(message))
    }

    /// A not-found error.
    pub fn not_found(message: &str) -> (r: Self)
        ensures
            r matches AgentOSError::NotFound(m) && m@ == message@,
    {
        AgentOSError::NotFound(owned(message))
    }

    /// An invalid-parameter error.
    pub fn invalid_parameter(message: &str) -> (r: Self)
        ensures
            r matches AgentOSError::InvalidParameter(m) && m@ == message@,
    {
        AgentOSError::InvalidParameter(owned(message))
    }

    /// A missing-parameter error.
    pub fn missing_parameter(message: &str) -> (r: Self)
        ensures
            r matches AgentOSError::MissingParameter(m) && m@ == message@,
    {
        AgentOSError::MissingParameter(owned(message))
    }

    /// A parse error; it is a JSON error.
    pub fn parse_error(message: &str) -> (r: Self)
        ensures
            r matches AgentOSError::Json(m) && m@ == message@,
    {
        AgentOSError::Json(owned(message))
    }

    /// An internal error: an error with the code `CODE_INTERNAL`.
    pub fn internal(message: &str) -> (r: Self)
        ensures
            r matches AgentOSError::WithCode { code: c, message: m } && c@ == CODE_INTERNAL@ && m@
                == message@,
    {
        AgentOSError::with_code(CODE_INTERNAL, message)
    }

    /// The error code of this error.
    pub fn code(&self) -> (r: &str)
        ensures
            r@ == self.code_spec(),
    {
        match self {
            AgentOSError::WithCode { code, .. } => code.as_str(),
            AgentOSError::Network(_) => CODE_NETWORK_ERROR,
            AgentOSError::Http(_) => CODE_SERVER_ERROR,
            AgentOSError::Json(_) => CODE_PARSE_ERROR,
            AgentOSError::Task(_) => CODE_TASK_FAILED,
            AgentOSError::Memory(_) => CODE_MEMORY_NOT_FOUND,
            AgentOSError::Session(_) => CODE_SESSION_NOT_FOUND,
            AgentOSError::Skill(_) => CODE_SKILL_NOT_FOUND,
            AgentOSError::Timeout(_) => CODE_TIMEOUT,
            AgentOSError::InvalidResponse(_) => CODE_INVALID_RESPONSE,
            AgentOSError::Config(_) => CODE_INVALID_CONFIG,
            AgentOSError::ConnectionRefused(_) => CODE_CONNECTION_REFUSED,
            AgentOSError::Unauthorized(_) => CODE_UNAUTHORIZED,
            AgentOSError::Forbidden(_) => CODE_FORBIDDEN,
            AgentOSError::NotFound(_) => CODE_NOT_FOUND,
            AgentOSError::InvalidParameter(_) => CODE_INVALID_PARAMETER,
            AgentOSError::MissingParameter(_) => CODE_MISSING_PARAMETER,
            AgentOSError::SyscallError(_) => CODE_SYSCALL_ERROR,
            AgentOSError::Other(_) => CODE_UNKNOWN,
        }
    }

    /// The message this error carries.
    pub fn message(&self) -> (r: &str)
        ensures
            r@ == self.message_spec(),
    {
        match self {
            AgentOSError::WithCode { message, .. } => message.as_str(),
            AgentOSError::Network(m) => m.as_str(),
            AgentOSError::Http(m) => m.as_str(),
            AgentOSError::Json(m) => m.as_str(),
            AgentOSError::Task(m) => m.as_str(),
            AgentOSError::Memory(m) => m.as_str(),
            AgentOSError::Session(m) => m.as_str(),
            AgentOSError::Skill(m) => m.as_str(),
            AgentOSError::Timeout(m) => m.as_str(),
            AgentOSError::InvalidResponse(m) => m.as_str(),
            AgentOSError::Config(m) => m.as_str(),
            AgentOSError::ConnectionRefused(m) => m.as_str(),
            AgentOSError::Unauthorized(m) => m.as_str(),
            AgentOSError::Forbidden(m) => m.as_str(),
            AgentOSError::NotFound(m) => m.as_str(),
            AgentOSError::InvalidParameter(m) => m.as_str(),
            AgentOSError::MissingParameter(m) => m.as_str(),
            AgentOSError::SyscallError(m) => m.as_str(),
            AgentOSError::Other(m) => m.as_str(),
        }
    }

    /// The display text of an error: `[<code>] <message>`.
    pub fn to_string(&self) -> (r: String)
        ensures
            r@ == "["@ + self.code_spec() + "] "@ + self.message_spec(),
    {
        let mut r = owned("[");
        r.append(self.code());
        r.append("] ");
        r.append(self.message());
        r
    }

    /// Whether the error is a network, timeout or connection-refused error.
    pub fn is_network_error(&self) -> (r: bool)
        ensures
            r == self.is_network_spec(),
    {
        match self {
            AgentOSError::Network(_) | AgentOSError::Timeout(_)
            | AgentOSError::ConnectionRefused(_) => true,
            _ => false,
        }
    }

    /// Whether the error is an HTTP, task or skill error.
    pub fn is_server_error(&self) -> (r: bool)
        ensures
            r == self.is_server_spec(),
    {
        match self {
            AgentOSError::Http(_) | AgentOSError::Task(_) | AgentOSError::Skill(_) => true,
            _ => false,
        }
    }
}

/// The error code an HTTP status maps to.
pub open spec fn status_code_spec(status: u16) -> Seq<char> {
    if status == 400 {
        CODE_INVALID_PARAMETER@
    } else if status == 401 {
        CODE_UNAUTHORIZED@
    } else if status == 403 {
        CODE_FORBIDDEN@
    } else if status == 404 {
        CODE_NOT_FOUND@
    } else if status == 408 {
        CODE_TIMEOUT@
    } else if status == 409 {
        CODE_CONFLICT@
    } else if status == 422 {
        CODE_VALIDATION_ERROR@
    } else if status == 429 {
        CODE_RATE_LIMITED@
    } else if status == 500 || status == 502 || status == 503 {
        CODE_SERVER_ERROR@
    } else if status == 504 {
        CODE_TIMEOUT@
    } else {
        CODE_UNKNOWN@
    }
}

/// The code each HTTP status reports: 400 an invalid parameter (0x0002),
/// 401 unauthorized (0x000D), 403 forbidden (0x000E), 404 not found
/// (0x0005), 408 and 504 a timeout (0x0004), 409 a conflict (0x0007), 422
/// a validation error (0x0012), 429 rate limited (0x000F), 500, 502 and 503
/// a server error (0x000C), and every other status unknown (0x0001).
pub proof fn law_status_codes(status: u16)
    ensures
        status == 400 ==> status_code_spec(status) == "0x0002"@,
        status == 401 ==> status_code_spec(status) == "0x000D"@,
        status == 403 ==> status_code_spec(status) == "0x000E"@,
        status == 404 ==> status_code_spec(status) == "0x0005"@,
        (status == 408 || status == 504) ==> status_code_spec(status) == "0x0004"@,
        status == 409 ==> status_code_spec(status) == "0x0007"@,
        status == 422 ==> status_code_spec(status) == "0x0012"@,
        status == 429 ==> status_code_spec(status) == "0x000F"@,
        (status == 500 || status == 502 || status == 503) ==> status_code_spec(status) == "0x000C"@,
        !(status == 400 || status == 401 || status == 403 || status == 404 || status == 408 || status == 409
            || status == 422 || status == 429 || status == 500 || status == 502 || status == 503 || status
            == 504) ==> status_code_spec(status) == "0x0001"@,
{
}

/// The error an HTTP status and message turn into.
pub open spec fn status_error_matches(status: u16, message: Seq<char>, e: AgentOSError) -> bool {
    &&& e.message_spec() == message
    &&& if status == 400 {
        e is InvalidParameter
    } else if status == 401 {
        e is Unauthorized
    } else if status == 403 {
        e is Forbidden
    } else if status == 404 {
        e is NotFound
    } else if status == 408 {
        e is Timeout
    } else if status == 429 {
        e is WithCode && e.code_spec() == CODE_RATE_LIMITED@
    } else if 500 <= status <= 599 {
        e is Http
    } else {
        e is WithCode && e.code_spec() == status_code_spec(status)
    }
}

/// Maps an HTTP status code to an SDK error code.
pub fn http_status_to_code(status: u16) -> (r: ErrorCode)
    ensures
        r@ == status_code_spec(status),
{
    match status {
        400 => CODE_INVALID_PARAMETER,
        401 => CODE_UNAUTHORIZED,
        403 => CODE_FORBIDDEN,
        404 => CODE_NOT_FOUND,
        408 => CODE_TIMEOUT,
        409 => CODE_CONFLICT,
        422 => CODE_VALIDATION_ERROR,
        429 => CODE_RATE_LIMITED,
        500 | 502 | 503 => CODE_SERVER_ERROR,
        504 => CODE_TIMEOUT,
        _ => CODE_UNKNOWN,
    }
}

/// Turns an HTTP status code and a message into an SDK error.
pub fn http_status_to_error(status: u16, message: &str) -> (r: AgentOSError)
    ensures
        status_error_matches(status, message@, r),
{
    let code = http_status_to_code(status);
    match status {
        400 => AgentOSError::invalid_parameter(message),
        401 => AgentOSError::unauthorized(message),
        403 => AgentOSError::forbidden(message),
        404 => AgentOSError::not_found(message),
        408 => AgentOSError::timeout(message),
        429 => AgentOSError::with_code(CODE_RATE_LIMITED, message),
        500..=599 => AgentOSError::http(message),
        _ => AgentOSError::with_code(code, message),
    }
}

/// An error built from an HTTP status keeps the message it was given, and
/// reports the code that status maps to, for every status outside the
/// 5xx range and for 500, 502 and 503.
pub proof fn law_status_error_code(status: u16, message: Seq<char>, e: AgentOSError)
    requires
        status_error_matches(status, message, e),
        !(500 <= status <= 599) || status == 500 || status == 502 || status == 503,
    ensures
        e.code_spec() == status_code_spec(status),
        e.message_spec() == message,
{
}

/// How a request failed before any HTTP status came back, as reported by
/// the transport.
pub struct TransportFailure {
    pub timeout: bool,
    pub connect: bool,
    pub request: bool,
    pub status: bool,
    pub body: bool,
    pub decode: bool,
    pub message: String,
}

/// The error a transport failure converts into: the first of the flags
/// timeout, connect, request, status, body-or-decode that is set decides the
/// kind; none set gives `Other`.
pub open spec fn transport_error_matches(f: TransportFailure, e: AgentOSError) -> bool {
    &&& e.message_spec() == f.message@
    &&& if f.timeout {
        e is Timeout
    } else if f.connect {
        e is ConnectionRefused
    } else if f.request {
        e is Network
    } else if f.status {
        e is Http
    } else if f.body || f.decode {
        e is Json
    } else {
        e is Other
    }
}

impl AgentOSError {
    /// Converts a transport failure into an SDK error.
    pub fn from_transport_failure(f: TransportFailure) -> (r: AgentOSError)
        ensures
            transport_error_matches(f, r),
    {
        if f.timeout {
            AgentOSError::Timeout(f.message)
        } else if f.connect {
            AgentOSError::ConnectionRefused(f.message)
        } else if f.request {
            AgentOSError::Network(f.message)
        } else if f.status {
            AgentOSError::Http(f.message)
        } else if f.body || f.decode {
            AgentOSError::Json(f.message)
        } else {
            AgentOSError::Other(f.message)
        }
    }
}


#[verifier::external_type_specification]
#[verifier::external_body]
pub struct ExSerdeJsonError(serde_json::Error);

/// The description `serde_json` gives of a parse error (its `Display`).
/// Nothing is stated of the text.
#[verifier::external_body]
fn serde_error_text(e: &serde_json::Error) -> (r: String) {
    e.to_string()
}

impl AgentOSError {
    /// Converts a JSON error of `serde_json` into a JSON error of the SDK,
    /// keeping its description.
    pub fn from_json_error(e: serde_json::Error) -> (r: AgentOSError)
        ensures
            r is Json,
    {
        AgentOSError::Json(serde_error_text(&e))
    }
}

} // verus!
