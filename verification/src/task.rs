//! The first task interface: a task's status, its result, and how the
//! runtime's answers about one task are read.

use vstd::prelude::*;
use crate::error::AgentOSError;
use crate::json::{Json, JsonValue, member};
use crate::modules::task::WaitStep;
use crate::text::{concat2, owned, str_eq, opt_string_view};

verus! {

broadcast use vstd::string::group_string_axioms;

/// The status of a task.
#[derive(Debug, Clone, Copy, PartialEq, Eq, Structural)]
pub enum TaskStatus {
    Pending,
    Running,
    Completed,
    Failed,
    Cancelled,
}

impl TaskStatus {
    /// The status's name.
    pub open spec fn name(self) -> Seq<char> {
        match self {
            TaskStatus::Pending => "pending"@,
            TaskStatus::Running => "running"@,
            TaskStatus::Completed => "completed"@,
            TaskStatus::Failed => "failed"@,
            TaskStatus::Cancelled => "cancelled"@,
        }
    }

    /// The status a name names, if any.
    pub open spec fn parse(s: Seq<char>) -> Option<TaskStatus> {
        if s == "pending"@ {
            Some(TaskStatus::Pending)
        } else if s == "running"@ {
            Some(TaskStatus::Running)
        } else if s == "completed"@ {
            Some(TaskStatus::Completed)
        } else if s == "failed"@ {
            Some(TaskStatus::Failed)
        } else if s == "cancelled"@ {
            Some(TaskStatus::Cancelled)
        } else {
            None
        }
    }

    /// Parses a status name.
    pub fn from_str(s: &str) -> (r: Option<Self>)
        ensures
            r == TaskStatus::parse(s@),
    {
        if str_eq(s, "pending") {
            Some(TaskStatus::Pending)
        } else if str_eq(s, "running") {
            Some(TaskStatus::Running)
        } else if str_eq(s, "completed") {
            Some(TaskStatus::Completed)
        } else if str_eq(s, "failed") {
            Some(TaskStatus::Failed)
        } else if str_eq(s, "cancelled") {
            Some(TaskStatus::Cancelled)
        } else {
            None
        }
    }

    /// The status's name.
    pub fn as_str(&self) -> (r: &'static str)
        ensures
            r@ == self.name(),
    {
        match self {
            TaskStatus::Pending => "pending",
            TaskStatus::Running => "running",
            TaskStatus::Completed => "completed",
            TaskStatus::Failed => "failed",
            TaskStatus::Cancelled => "cancelled",
        }
    }

    /// Whether the status is final: completed, failed or cancelled.
    pub fn is_terminal(&self) -> (r: bool)
        ensures
            r == (self == TaskStatus::Completed || self == TaskStatus::Failed || self == TaskStatus::Cancelled),
    {
        match self {
            TaskStatus::Completed | TaskStatus::Failed | TaskStatus::Cancelled => true,
            _ => false,
        }
    }

    /// The status's name, owned.
    pub fn to_string(&self) -> (r: String)
        ensures
            r@ == self.name(),
    {
        owned(self.as_str())
    }
}

/// The result of a finished task.
#[derive(Debug)]
pub struct TaskResult {
    pub id: String,
    pub status: String,
    pub output: Option<String>,
    pub error: Option<String>,
}

/// The string member of a value, if it is a string.
pub open spec fn string_member(v: Json, key: Seq<char>) -> Option<Seq<char>> {
    match member(v, key) {
        Some(Json::Str(s)) => Some(s),
        _ => None,
    }
}

fn string_member_exec(v: &JsonValue, key: &str) -> (r: Option<String>)
    ensures
        opt_string_view(r) == string_member(v.model(), key@),
{
    match v.get(key) {
        Some(x) => match x.as_str() {
            Some(s) => Some(owned(s)),
            None => None,
        },
        None => None,
    }
}

/// Reads a task's status from the data of an answer: the `status` must be
/// a string that names a status.
pub fn read_status(data: &JsonValue) -> (r: Result<TaskStatus, AgentOSError>)
    ensures
        match string_member(data.model(), "status"@) {
            None => r matches Err(AgentOSError::InvalidResponse(m)) && m@ == "Missing status"@,
            Some(s) => match TaskStatus::parse(s) {
                Some(t) => r == Ok::<TaskStatus, AgentOSError>(t),
                None => r matches Err(AgentOSError::InvalidResponse(m)) && m@ == "Unknown status: "@ + s,
            },
        },
{
    let status = match string_member_exec(data, "status") {
        Some(s) => s,
        None => {
            return Err(AgentOSError::InvalidResponse(owned("Missing status")));
        },
    };
    match TaskStatus::from_str(status.as_str()) {
        Some(t) => Ok(t),
        None => Err(AgentOSError::InvalidResponse(concat2("Unknown status: ", status.as_str()))),
    }
}

/// The result of a finished task from the data of an answer: the output and
/// error when they are strings.
pub fn read_result(task_id: &str, status: TaskStatus, data: &JsonValue) -> (r: TaskResult)
    ensures
        r.id@ == task_id@,
        r.status@ == status.name(),
        opt_string_view(r.output) == string_member(data.model(), "output"@),
        opt_string_view(r.error) == string_member(data.model(), "error"@),
{
    TaskResult {
        id: owned(task_id),
        status: owned(status.as_str()),
        output: string_member_exec(data, "output"),
        error: string_member_exec(data, "error"),
    }
}

/// Reads the `success` flag of an answer's data, which must be a boolean.
pub fn read_success(data: &JsonValue) -> (r: Result<bool, AgentOSError>)
    ensures
        match member(data.model(), "success"@) {
            Some(Json::Bool(b)) => r == Ok::<bool, AgentOSError>(b),
            _ => r matches Err(AgentOSError::InvalidResponse(m)) && m@ == "Missing success"@,
        },
{
    match data.get("success") {
        Some(v) => match v.as_bool() {
            Some(b) => Ok(b),
            None => Err(AgentOSError::InvalidResponse(owned("Missing success"))),
        },
        None => Err(AgentOSError::InvalidResponse(owned("Missing success"))),
    }
}

/// The step of a wait after reading the task's status: finish at a
/// terminal status; otherwise give up once the elapsed time exceeds the
/// limit, when there is one, and poll again when there is none or it is
/// not yet exceeded. Without a limit a wait never times out.
pub fn poll_step(status: TaskStatus, elapsed_nanos: u128, timeout_nanos: Option<u128>) -> (r: WaitStep)
    ensures
        r == (if status == TaskStatus::Completed || status == TaskStatus::Failed || status == TaskStatus::Cancelled {
            WaitStep::Finish
        } else {
            match timeout_nanos {
                Some(t) => if elapsed_nanos > t {
                    WaitStep::TimedOut
                } else {
                    WaitStep::Poll
                },
                None => WaitStep::Poll,
            }
        }),
        timeout_nanos is None ==> r != WaitStep::TimedOut,
{
    if status.is_terminal() {
        WaitStep::Finish
    } else {
        match timeout_nanos {
            Some(t) => if elapsed_nanos > t {
                WaitStep::TimedOut
            } else {
                WaitStep::Poll
            },
            None => WaitStep::Poll,
        }
    }
}

/// The error of a wait that ran out of time.
pub fn timed_out_error() -> (r: AgentOSError)
    ensures
        r matches AgentOSError::Timeout(m) && m@ == "Task timed out"@,
{
    AgentOSError::Timeout(owned("Task timed out"))
}

} // verus!
