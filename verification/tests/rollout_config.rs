use codewen::metrics::THREAD_STARTED_METRIC;
use codewen::metrics::TOOL_CALL_COUNT_METRIC;
use codewen::rollout_config::Config;
use codewen::rollout_config::MemoriesConfig;

#[test]
fn config_exposes_rollout_settings() {
    let config = Config {
        codewen_home: "/home/u/.codewen".to_string(),
        sqlite_home: "/home/u/.codewen/db".to_string(),
        cwd: "/work".to_string(),
        model_provider_id: "openai".to_string(),
        memories: MemoriesConfig { generate_memories: true },
    };
    assert_eq!(config.codewen_home(), "/home/u/.codewen");
    assert_eq!(config.sqlite_home(), "/home/u/.codewen/db");
    assert_eq!(config.cwd(), "/work");
    assert_eq!(config.model_provider_id(), "openai");
    assert!(config.generate_memories());
}

#[test]
fn metric_names_are_namespaced() {
    assert_eq!(TOOL_CALL_COUNT_METRIC, "codewen.tool.call");
    assert_eq!(THREAD_STARTED_METRIC, "codewen.thread.started");
}
