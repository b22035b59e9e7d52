use agentrt_rs::json::JsonMap;
use agentrt_rs::plugin::{BasePlugin, PluginBox, PluginFactory, PluginManager, PluginManifest, PluginRegistry, PluginState};

struct SimplePlugin {
    plugin_id: String,
    caps: Vec<String>,
}

impl BasePlugin for SimplePlugin {
    fn plugin_id(&self) -> &str {
        &self.plugin_id
    }

    fn set_plugin_id(&mut self, id: &str) {
        self.plugin_id = id.to_string();
    }

    fn on_load(&mut self, _context: &JsonMap) -> Result<(), String> {
        Ok(())
    }

    fn on_activate(&mut self, _context: &JsonMap) -> Result<(), String> {
        Ok(())
    }

    fn on_deactivate(&mut self) -> Result<(), String> {
        Ok(())
    }

    fn on_unload(&mut self) -> Result<(), String> {
        Ok(())
    }

    fn on_error(&mut self, _error: &str) {}

    fn get_capabilities(&self) -> Vec<String> {
        self.caps.clone()
    }
}

/// Makes plugins that report no id and the given capabilities.
struct Factory(Vec<&'static str>);

impl PluginFactory for Factory {
    fn create(&self) -> PluginBox {
        PluginBox::new(SimplePlugin { plugin_id: String::new(), caps: self.0.iter().map(|c| c.to_string()).collect() })
    }
}

fn test_factory() -> Box<dyn PluginFactory> {
    Box::new(Factory(vec!["test", "simple"]))
}

fn logger_factory() -> Box<dyn PluginFactory> {
    Box::new(Factory(vec!["logging", "structured_logs"]))
}

fn metrics_factory() -> Box<dyn PluginFactory> {
    Box::new(Factory(vec!["metrics", "counters"]))
}

fn with_caps(id: &str, name: &str, caps: &[&str]) -> PluginManifest {
    PluginManifest {
        plugin_id: id.to_string(),
        capabilities: caps.iter().map(|c| c.to_string()).collect(),
        ..PluginManifest::new(id, name)
    }
}

#[test]
fn test_register() {
    let mut registry = PluginRegistry::new();
    let pid = registry.register(test_factory(), Some(PluginManifest::new("testPlugin", "Test Plugin"))).unwrap();
    assert_eq!(pid, "testPlugin");
}

#[test]
fn test_register_duplicate() {
    let mut registry = PluginRegistry::new();
    let manifest = PluginManifest::new("testPlugin", "Test Plugin");
    registry.register(test_factory(), Some(manifest)).unwrap();

    let manifest2 = PluginManifest::new("testPlugin", "Test Plugin");
    let result = registry.register(test_factory(), Some(manifest2));
    assert!(result.is_err());
}

#[test]
fn test_discover() {
    let mut registry = PluginRegistry::new();
    registry.register(logger_factory(), Some(with_caps("loggerPlugin", "Logger", &["logging"]))).unwrap();
    registry.register(metrics_factory(), Some(with_caps("metricsPlugin", "Metrics", &["metrics"]))).unwrap();

    let all = registry.discover(None);
    assert_eq!(all.len(), 2);

    let logging = registry.discover(Some("logging"));
    assert_eq!(logging.len(), 1);
}

#[test]
fn test_load() {
    let mut registry = PluginRegistry::new();
    registry.register(test_factory(), Some(PluginManifest::new("testPlugin", "Test Plugin"))).unwrap();

    let result = registry.load("testPlugin");
    assert!(result.is_ok());

    let state = registry.get_state("testPlugin");
    assert_eq!(state, Some(&PluginState::Loaded));
}

#[test]
fn test_load_nonexistent() {
    let mut registry = PluginRegistry::new();
    let result = registry.load("nonexistent");
    assert!(result.is_err());
}

#[test]
fn test_unload() {
    let mut registry = PluginRegistry::new();
    registry.register(test_factory(), Some(PluginManifest::new("testPlugin", "Test Plugin"))).unwrap();
    registry.load("testPlugin").unwrap();

    let result = registry.unload("testPlugin");
    assert!(result);

    let state = registry.get_state("testPlugin");
    assert_eq!(state, Some(&PluginState::Unloaded));
}

#[test]
fn test_unregister() {
    let mut registry = PluginRegistry::new();
    registry.register(test_factory(), Some(PluginManifest::new("testPlugin", "Test Plugin"))).unwrap();
    registry.load("testPlugin").unwrap();

    let result = registry.unregister("testPlugin");
    assert!(result);

    let plugins = registry.list_plugins();
    assert!(!plugins.contains(&"testPlugin"));
}

#[test]
fn test_find_by_capability() {
    let mut registry = PluginRegistry::new();
    registry.register(logger_factory(), Some(with_caps("loggerPlugin", "Logger", &["logging"]))).unwrap();
    registry.register(metrics_factory(), Some(with_caps("metricsPlugin", "Metrics", &["metrics"]))).unwrap();

    let result = registry.find_by_capability("metrics");
    assert!(result.contains(&"metricsPlugin"));
    assert!(!result.contains(&"loggerPlugin"));
}

#[test]
fn test_full_lifecycle() {
    let mut registry = PluginRegistry::new();

    let pid = registry.register(logger_factory(), Some(with_caps("loggerPlugin", "Logger", &["logging"]))).unwrap();
    assert_eq!(pid, "loggerPlugin");

    let discovered = registry.discover(None);
    assert_eq!(discovered.len(), 1);

    let result = registry.load("loggerPlugin");
    assert!(result.is_ok());

    let state = registry.get_state("loggerPlugin");
    assert_eq!(state, Some(&PluginState::Loaded));

    let result = registry.unload("loggerPlugin");
    assert!(result);

    let state = registry.get_state("loggerPlugin");
    assert_eq!(state, Some(&PluginState::Unloaded));
}

#[test]
fn test_manager_load_and_activate() {
    let mut pm = PluginManager::new().with_sandbox_disabled();
    let manifest = PluginManifest::new("test_plugin", "Test Plugin");

    let info = pm.load_plugin("test_plugin", manifest).unwrap();
    assert_eq!(info.state, PluginState::Loaded);

    pm.activate_plugin("test_plugin");
    let info = pm.get_plugin_info("test_plugin").unwrap();
    assert_eq!(info.state, PluginState::Active);
}

#[test]
fn test_manager_get_stats() {
    let pm = PluginManager::new();
    let stats = pm.get_stats();
    assert_eq!(stats.get("total_plugins").unwrap().as_u64(), Some(0));
}

#[test]
fn reported_capabilities_fill_an_empty_list() {
    let mut registry = PluginRegistry::new();
    registry.register(test_factory(), Some(PluginManifest::new("p", "P"))).unwrap();
    let m = registry.get_manifest("p").unwrap();
    assert_eq!(m.capabilities, vec!["test".to_string(), "simple".to_string()]);
    assert_eq!(registry.find_by_capability("simple"), vec!["p"]);
}

#[test]
fn loaded_instance_answers_to_its_id() {
    let mut registry = PluginRegistry::new();
    registry.register(test_factory(), Some(PluginManifest::new("testPlugin", "Test Plugin"))).unwrap();
    assert_eq!(registry.load("testPlugin").unwrap().plugin_id(), "testPlugin");
    assert_eq!(registry.get("testPlugin").unwrap().plugin_id(), "testPlugin");
    assert!(registry.get("nonexistent").is_none());
    assert!(registry.get_state("nonexistent").is_none());
}
