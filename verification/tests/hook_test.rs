use agentrt_rs::hook::{Hook, HookContext, HookResult};
use agentrt_rs::json::JsonValue;

struct TestHook {
    called: bool,
}

impl Hook for TestHook {
    fn name(&self) -> &str {
        "test_hook"
    }

    fn on_tool_call(&mut self, _ctx: &HookContext, tool_name: &str, _tool_input: Option<&JsonValue>) -> HookResult {
        self.called = true;
        if tool_name == "dangerous_tool" {
            HookResult::deny("Blocked for testing")
        } else {
            HookResult::allow()
        }
    }
}

#[test]
fn test_hook_default_behavior() {
    let mut hook = TestHook { called: false };
    let ctx = HookContext::new("test_event");

    let result = hook.on_agent_start(&ctx, None);
    assert!(result.allowed);

    assert!(!hook.called);
}

#[test]
fn test_hook_block_tool() {
    let mut hook = TestHook { called: false };
    let ctx = HookContext::new("on_tool_call");

    let result = hook.on_tool_call(&ctx, "dangerous_tool", None);
    assert!(!result.allowed);
    assert_eq!(result.messages, vec!["Blocked for testing"]);
    assert!(hook.called);
}

#[test]
fn test_hook_allow_tool() {
    let mut hook = TestHook { called: false };
    let ctx = HookContext::new("on_tool_call");

    let result = hook.on_tool_call(&ctx, "safe_tool", None);
    assert!(result.allowed);
    assert!(hook.called);
}

#[test]
fn test_hook_info() {
    let hook = TestHook { called: false };
    let info = hook.get_hook_info();
    assert_eq!(info.get("name").unwrap().as_str(), Some("test_hook"));
    assert_eq!(info.get("version").unwrap().as_str(), Some("0.1.0"));
    assert_eq!(info.get("priority").unwrap().as_u64(), Some(50));
    assert_eq!(info.get("enabled"), Some(&JsonValue::Bool(true)));
    assert_eq!(info.len(), 4);
}
