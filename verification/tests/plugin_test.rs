use agentrt_rs::hook::{Hook, HookContext, HookResult};
use agentrt_rs::json::{JsonMap, JsonValue};
use agentrt_rs::plugin::{
    BasePlugin, PluginBox, PluginFactory, PluginManager, PluginManifest, PluginRegistry, PluginState, PluginType,
};

struct TestPlugin {
    plugin_id: String,
    loaded: bool,
    activated: bool,
    fail_load: bool,
}

impl TestPlugin {
    fn new(name: &str) -> Self {
        Self { plugin_id: name.to_string(), loaded: false, activated: false, fail_load: false }
    }
}

impl BasePlugin for TestPlugin {
    fn plugin_id(&self) -> &str {
        &self.plugin_id
    }

    fn set_plugin_id(&mut self, id: &str) {
        self.plugin_id = id.to_string();
    }

    fn on_load(&mut self, _context: &JsonMap) -> Result<(), String> {
        if self.fail_load {
            return Err("boom".to_string());
        }
        self.loaded = true;
        Ok(())
    }

    fn on_activate(&mut self, _context: &JsonMap) -> Result<(), String> {
        self.activated = true;
        Ok(())
    }

    fn on_deactivate(&mut self) -> Result<(), String> {
        Ok(())
    }

    fn on_unload(&mut self) -> Result<(), String> {
        Ok(())
    }

    fn on_error(&mut self, _error: &str) {}

    fn get_capabilities(&self) -> Vec<String> {
        vec!["test".to_string(), "benchmark".to_string()]
    }
}

struct TestFactory {
    name: String,
    fail_load: bool,
}

impl TestFactory {
    fn boxed(name: &str) -> Box<dyn PluginFactory> {
        Box::new(TestFactory { name: name.to_string(), fail_load: false })
    }
}

impl PluginFactory for TestFactory {
    fn create(&self) -> PluginBox {
        let mut p = TestPlugin::new(&self.name);
        p.fail_load = self.fail_load;
        PluginBox::new(p)
    }
}

fn manifest_with_caps(id: &str, name: &str, caps: &[&str]) -> PluginManifest {
    PluginManifest {
        plugin_id: id.to_string(),
        capabilities: caps.iter().map(|c| c.to_string()).collect(),
        ..PluginManifest::new(id, name)
    }
}

#[test]
fn test_plugin_registry_create() {
    let registry = PluginRegistry::new();
    assert!(registry.list_plugins().is_empty());
}

#[test]
fn test_plugin_register_and_discover() {
    let mut registry = PluginRegistry::new();
    let pid = registry
        .register(
            TestFactory::boxed("test-plugin"),
            Some(PluginManifest { plugin_id: "test-plugin".to_string(), ..PluginManifest::new("test-plugin", "Test Plugin") }),
        )
        .unwrap();
    assert_eq!(pid, "test-plugin");
    assert_eq!(registry.list_plugins().len(), 1);

    let discovered = registry.discover(None);
    assert_eq!(discovered.len(), 1);
}

#[test]
fn test_plugin_register_duplicate() {
    let mut registry = PluginRegistry::new();
    registry.register(TestFactory::boxed("dup-plugin"), Some(PluginManifest::new("dup-plugin", "Dup Plugin"))).unwrap();
    let result =
        registry.register(TestFactory::boxed("dup-plugin"), Some(PluginManifest::new("dup-plugin", "Dup Plugin")));
    assert!(result.is_err(), "duplicate registration should fail");
}

#[test]
fn test_plugin_discover_by_capability() {
    let mut registry = PluginRegistry::new();
    registry.register(TestFactory::boxed("plugin-a"), Some(manifest_with_caps("plugin-a", "Plugin A", &["test"]))).unwrap();
    registry.register(TestFactory::boxed("plugin-b"), Some(manifest_with_caps("plugin-b", "Plugin B", &["test"]))).unwrap();

    let found = registry.discover(Some("test"));
    assert_eq!(found.len(), 2);
}

#[test]
fn test_plugin_discover_no_match() {
    let mut registry = PluginRegistry::new();
    registry
        .register(TestFactory::boxed("test-plugin"), Some(manifest_with_caps("test-plugin", "Test Plugin", &["test"])))
        .unwrap();

    let found = registry.discover(Some("nonexistent"));
    assert_eq!(found.len(), 0);
}

#[test]
fn test_plugin_lifecycle() {
    let mut registry = PluginRegistry::new();
    registry
        .register(TestFactory::boxed("lifecycle-plugin"), Some(PluginManifest::new("lifecycle-plugin", "Lifecycle Plugin")))
        .unwrap();

    registry.load("lifecycle-plugin").unwrap();
    assert_eq!(registry.get_state("lifecycle-plugin"), Some(&PluginState::Loaded));

    let manifest = registry.get_manifest("lifecycle-plugin");
    assert!(manifest.is_some());
    assert_eq!(manifest.unwrap().plugin_id, "lifecycle-plugin");
}

#[test]
fn test_plugin_unregister() {
    let mut registry = PluginRegistry::new();
    registry.register(TestFactory::boxed("temp-plugin"), Some(PluginManifest::new("temp-plugin", "Temp Plugin"))).unwrap();
    assert_eq!(registry.list_plugins().len(), 1);

    assert!(registry.unregister("temp-plugin"));
    assert!(registry.list_plugins().is_empty());
}

#[test]
fn test_plugin_manager_create() {
    let pm = PluginManager::new();
    let stats = pm.get_stats();
    assert_eq!(stats.get("total_plugins").unwrap().as_u64(), Some(0));
}

#[test]
fn test_plugin_manager_load_and_activate() {
    let mut pm = PluginManager::new().with_sandbox_disabled();
    let manifest = PluginManifest::new("mgr-plugin", "Manager Plugin");

    let info = pm.load_plugin("mgr-plugin", manifest).unwrap();
    assert_eq!(info.state, PluginState::Loaded);

    assert!(pm.activate_plugin("mgr-plugin"));
    let info = pm.get_plugin_info("mgr-plugin").unwrap();
    assert_eq!(info.state, PluginState::Active);
}

#[test]
fn test_plugin_manager_deactivate() {
    let mut pm = PluginManager::new().with_sandbox_disabled();
    pm.load_plugin("deact-plugin", PluginManifest::new("deact-plugin", "Deact Plugin")).unwrap();
    pm.activate_plugin("deact-plugin");

    assert!(pm.deactivate_plugin("deact-plugin"));
    let info = pm.get_plugin_info("deact-plugin").unwrap();
    assert_eq!(info.state, PluginState::Inactive);
}

#[test]
fn test_plugin_manager_unload() {
    let mut pm = PluginManager::new().with_sandbox_disabled();
    pm.load_plugin("unload-plugin", PluginManifest::new("unload-plugin", "Unload Plugin")).unwrap();
    assert!(pm.unload_plugin("unload-plugin"));
    assert!(pm.get_plugin_info("unload-plugin").is_none());
}

#[test]
fn test_plugin_type_enum() {
    assert_eq!(PluginType::Agent.to_string(), "agent");
    assert_eq!(PluginType::Tool.to_string(), "tool");
    assert_eq!(PluginType::Hook.to_string(), "hook");
    assert_eq!(PluginType::Skill.to_string(), "skill");
}

struct AuditorHook;
impl Hook for AuditorHook {
    fn name(&self) -> &str {
        "auditor"
    }
    fn priority(&self) -> u8 {
        100
    }
}

struct BlockDangerousHook;
impl Hook for BlockDangerousHook {
    fn name(&self) -> &str {
        "block_dangerous"
    }
    fn priority(&self) -> u8 {
        90
    }

    fn on_tool_call(&mut self, _ctx: &HookContext, tool_name: &str, _tool_input: Option<&JsonValue>) -> HookResult {
        if tool_name == "rm_rf" || tool_name == "format_disk" {
            HookResult::deny("Dangerous tool blocked")
        } else {
            HookResult::allow()
        }
    }
}

#[test]
fn test_hook_context_new() {
    let ctx = HookContext::new("on_agent_start");
    assert_eq!(ctx.event, "on_agent_start");
    assert!(ctx.agent_id.is_empty());
    assert!(!ctx.timestamp.is_empty());
}

#[test]
fn test_hook_result_allow() {
    let result = HookResult::allow();
    assert!(result.allowed);
    assert!(result.modified_data.is_none());
}

#[test]
fn test_hook_result_deny() {
    let result = HookResult::deny("blocked for security");
    assert!(!result.allowed);
    assert_eq!(result.messages, vec!["blocked for security"]);
}

#[test]
fn test_hook_result_with_data() {
    let mut obj = JsonMap::new();
    obj.insert("key".to_string(), JsonValue::String("value".to_string()));
    let data = JsonValue::Object(obj);
    let mut expected = JsonMap::new();
    expected.insert("key".to_string(), JsonValue::String("value".to_string()));
    let result = HookResult::with_modified_data(data);
    assert!(result.allowed);
    assert_eq!(result.modified_data, Some(JsonValue::Object(expected)));
}

#[test]
fn test_hook_default_info() {
    let hook = AuditorHook;
    assert_eq!(hook.name(), "auditor");
    assert_eq!(hook.version(), "0.1.0");
    assert_eq!(hook.priority(), 100);
    assert!(hook.enabled());
}

#[test]
fn test_hook_get_info() {
    let hook = AuditorHook;
    let info = hook.get_hook_info();
    assert_eq!(info.get("name").unwrap().as_str(), Some("auditor"));
    assert_eq!(info.get("version").unwrap().as_str(), Some("0.1.0"));
}

#[test]
fn test_hook_block_dangerous_tool() {
    let mut hook = BlockDangerousHook;
    let ctx = HookContext::new("on_tool_call");

    let result = hook.on_tool_call(&ctx, "rm_rf", None);
    assert!(!result.allowed);
    assert_eq!(result.messages, vec!["Dangerous tool blocked"]);

    let result = hook.on_tool_call(&ctx, "read_file", None);
    assert!(result.allowed);
}

#[test]
fn test_hook_default_methods_return_allow() {
    let mut hook = AuditorHook;
    let ctx = HookContext::new("test");

    assert!(hook.on_agent_start(&ctx, None).allowed);
    assert!(hook.on_agent_end(&ctx, None).allowed);
    assert!(hook.on_llm_request(&ctx, None, "gpt-4").allowed);
    assert!(hook.on_llm_response(&ctx, None, None).allowed);
    assert!(hook.on_memory_read(&ctx, "key", "L1").allowed);
    assert!(hook.on_memory_write(&ctx, "key", None).allowed);
}

#[test]
fn failed_load_puts_plugin_in_error() {
    let mut registry = PluginRegistry::new();
    registry
        .register(Box::new(TestFactory { name: "bad".to_string(), fail_load: true }), Some(PluginManifest::new("bad", "Bad")))
        .unwrap();
    let err = registry.load("bad").err().unwrap();
    assert_eq!(err, "plugin 'bad' on_load failed: boom");
    assert_eq!(registry.get_state("bad"), Some(&PluginState::Error));
    assert!(registry.get("bad").is_none());
    assert!(!registry.activate("bad"));
}

#[test]
fn registry_lifecycle_and_round_trip() {
    let mut registry = PluginRegistry::new();
    assert_eq!(registry.load("nope").err().unwrap(), "plugin 'nope' not found");
    let pid = registry.register(TestFactory::boxed("a"), None).unwrap();
    assert_eq!(pid, "a");
    let m = registry.get_manifest("a").unwrap();
    assert_eq!(m.name, "a");
    assert_eq!(m.version, "1.0.0");
    assert_eq!(m.capabilities, vec!["test".to_string(), "benchmark".to_string()]);
    assert_eq!(registry.get_state("a"), Some(&PluginState::Discovered));
    assert!(!registry.activate("a"));
    registry.load("a").unwrap();
    assert!(registry.activate("a"));
    assert_eq!(registry.get_state("a"), Some(&PluginState::Active));
    assert!(!registry.activate("a"));
    assert!(registry.deactivate("a"));
    assert_eq!(registry.get_state("a"), Some(&PluginState::Inactive));
    assert!(registry.unload("a"));
    assert_eq!(registry.get_state("a"), Some(&PluginState::Unloaded));
    assert!(!registry.unload("a"));
    assert_eq!(registry.find_by_capability("benchmark"), vec!["a"]);
    assert!(registry.unregister("a"));
    assert!(!registry.unregister("a"));
    assert!(registry.list_plugins().is_empty());
    let dup = registry.register(TestFactory::boxed("a"), None).unwrap();
    assert_eq!(dup, "a");
    assert_eq!(registry.register(TestFactory::boxed("a"), None).err().unwrap(), "plugin 'a' already registered");
    assert_eq!(registry.register(TestFactory::boxed(""), None).err().unwrap(), "plugin ID cannot be empty");
}

#[test]
fn manager_counts_states_and_activations() {
    let mut pm = PluginManager::new();
    pm.load_plugin("x", PluginManifest::new("x", "X")).unwrap();
    pm.load_plugin("y", PluginManifest::new("y", "Y")).unwrap();
    assert!(pm.activate_plugin("x"));
    assert_eq!(pm.get_plugin_info("x").unwrap().activation_count, 1);
    assert!(pm.get_plugin_info("x").unwrap().activated_at.is_some());
    assert!(!pm.activate_plugin("x"));
    let stats = pm.get_stats();
    assert_eq!(stats.get("total_plugins").unwrap().as_u64(), Some(2));
    assert_eq!(stats.get("sandbox_enabled"), Some(&JsonValue::Bool(true)));
    let counts = stats.get("state_counts").unwrap().as_object().unwrap();
    assert_eq!(counts.get("active").unwrap().as_u64(), Some(1));
    assert_eq!(counts.get("loaded").unwrap().as_u64(), Some(1));
    assert!(counts.get("inactive").is_none());
    assert_eq!(pm.list_plugins(Some(&PluginState::Loaded)).len(), 1);
    assert_eq!(pm.list_plugins(None).len(), 2);
    assert!(pm.unload_plugin("x"));
    assert!(!pm.unload_plugin("x"));
    assert_eq!(pm.list_plugins(None).len(), 1);
}

/// A plugin whose activation or deactivation step fails on request.
struct StepPlugin {
    plugin_id: String,
    fail_activate: bool,
    fail_deactivate: bool,
}

impl BasePlugin for StepPlugin {
    fn plugin_id(&self) -> &str {
        &self.plugin_id
    }

    fn set_plugin_id(&mut self, id: &str) {
        self.plugin_id = id.to_string();
    }

    fn on_load(&mut self, _context: &JsonMap) -> Result<(), String> {
        Ok(())
    }

    fn on_activate(&mut self, _context: &JsonMap) -> Result<(), String> {
        if self.fail_activate {
            Err("no".to_string())
        } else {
            Ok(())
        }
    }

    fn on_deactivate(&mut self) -> Result<(), String> {
        if self.fail_deactivate {
            Err("no".to_string())
        } else {
            Ok(())
        }
    }

    fn on_unload(&mut self) -> Result<(), String> {
        Ok(())
    }

    fn on_error(&mut self, _error: &str) {}

    fn get_capabilities(&self) -> Vec<String> {
        Vec::new()
    }
}

struct StepFactory {
    name: String,
    fail_activate: bool,
    fail_deactivate: bool,
}

impl PluginFactory for StepFactory {
    fn create(&self) -> PluginBox {
        PluginBox::new(StepPlugin {
            plugin_id: self.name.clone(),
            fail_activate: self.fail_activate,
            fail_deactivate: self.fail_deactivate,
        })
    }
}

#[test]
fn activation_answer_follows_the_plugin_step() {
    let mut registry = PluginRegistry::new();
    registry
        .register(Box::new(StepFactory { name: "a".to_string(), fail_activate: true, fail_deactivate: false }), None)
        .unwrap();
    registry
        .register(Box::new(StepFactory { name: "d".to_string(), fail_activate: false, fail_deactivate: true }), None)
        .unwrap();
    assert!(registry.load("a").is_ok());
    assert_eq!(registry.get_state("a"), Some(&PluginState::Loaded));
    assert!(!registry.activate("a"));
    assert_eq!(registry.get_state("a"), Some(&PluginState::Error));

    assert!(registry.load("d").is_ok());
    assert!(registry.activate("d"));
    assert_eq!(registry.get_state("d"), Some(&PluginState::Active));
    assert!(!registry.deactivate("d"));
    assert_eq!(registry.get_state("d"), Some(&PluginState::Error));
}
