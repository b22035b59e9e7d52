use agentrt_rs::json::{JsonMap, JsonValue};
use agentrt_rs::syscall::{
    memory_write_request, syscall_url, task_wait_request, AgentSyscall, SessionSyscall, SkillSyscall,
    SyscallBinding, SyscallNamespace, SyscallRequest, SyscallResponse, TaskSyscall, MemorySyscall,
};
use agentrt_rs::AgentOSError;
use std::cell::RefCell;

struct Recorder {
    seen: RefCell<Vec<(String, String, usize)>>,
}

impl SyscallBinding for Recorder {
    fn invoke(&self, request: SyscallRequest) -> Result<SyscallResponse, AgentOSError> {
        self.seen.borrow_mut().push((request.namespace.to_string(), request.operation.clone(), request.params.len()));
        Ok(SyscallResponse { success: true, data: None, error: None })
    }
}

#[test]
fn requests_carry_their_parameters() {
    let r = task_wait_request("t", 7);
    assert_eq!(r.namespace, SyscallNamespace::Task);
    assert_eq!(r.operation, "wait");
    assert_eq!(r.params.get("task_id").unwrap().as_str(), Some("t"));
    assert_eq!(r.params.get("timeout_ms").unwrap().as_u64(), Some(7));
    let r = memory_write_request("c", Some(JsonValue::Bool(true)));
    assert_eq!(r.params.len(), 2);
    let r = memory_write_request("c", None);
    assert_eq!(r.params.len(), 1);
    assert_eq!(syscall_url("http://h//", SyscallNamespace::Skill), "http://h/api/v1/syscall/skill");
}

#[test]
fn calls_go_through_the_binding() {
    let task = TaskSyscall::new(Recorder { seen: RefCell::new(Vec::new()) });
    assert!(task.submit("x").unwrap().success);
    task.cancel("t").unwrap();
    let memory = MemorySyscall::new(Recorder { seen: RefCell::new(Vec::new()) });
    memory.search("q", 3).unwrap();
    let session = SessionSyscall::new(Recorder { seen: RefCell::new(Vec::new()) });
    session.set_context("s", "k", "v").unwrap();
    session.list().unwrap();
    let skill = SkillSyscall::new(Recorder { seen: RefCell::new(Vec::new()) });
    skill.execute("id", JsonValue::Object(JsonMap::new())).unwrap();
    let agent = AgentSyscall::new(Recorder { seen: RefCell::new(Vec::new()) });
    agent.invoke("a", "m", JsonValue::Null).unwrap();
}
