use rust_agent::memory::composite_memory::{CompositeMemory, CompositeMemoryConfig};
use std::path::PathBuf;

#[test]
fn test_app_state_with_config() {}

#[test]
fn a_memory_is_built_from_its_configuration() {
    let config = CompositeMemoryConfig {
        data_dir: PathBuf::from("./data/memory"),
        session_id: Some("state".to_string()),
        summary_threshold: 50,
        recent_messages_count: 2,
        auto_generate_summary: true,
    };
    let memory = CompositeMemory::with_config(config, "2024-01-01T00:00:00+00:00".to_string());
    assert_eq!(memory.get_session_id(), "state");
    assert_eq!(memory.config().summary_threshold, 50);
    assert_eq!(memory.config().recent_messages_count, 2);
    assert!(memory.config().auto_generate_summary);
    assert_eq!(memory.get_message_count(), 0);
    assert_eq!(memory.get_summary(), None);
}

#[test]
fn default_config_uses_the_documented_defaults() {
    let config = CompositeMemoryConfig::default();
    assert_eq!(config.data_dir, PathBuf::from("./data/memory"));
    assert_eq!(config.session_id, None);
    assert_eq!(config.summary_threshold, 3500);
    assert_eq!(config.recent_messages_count, 10);
    assert!(config.auto_generate_summary);
}

#[test]
fn config_from_env_parses_numbers_and_falls_back() {
    let config = CompositeMemoryConfig::from_env(Some("/var/mem"), Some("120"), Some("+7"));
    assert_eq!(config.data_dir, PathBuf::from("/var/mem"));
    assert_eq!(config.summary_threshold, 120);
    assert_eq!(config.recent_messages_count, 7);

    let config = CompositeMemoryConfig::from_env(None, Some("12x"), Some(""));
    assert_eq!(config.summary_threshold, 3500);
    assert_eq!(config.recent_messages_count, 10);

    let config = CompositeMemoryConfig::from_env(None, Some(" 5"), Some("-3"));
    assert_eq!(config.summary_threshold, 3500);
    assert_eq!(config.recent_messages_count, 10);

    let config =
        CompositeMemoryConfig::from_env(None, Some("99999999999999999999999999"), Some("+"));
    assert_eq!(config.summary_threshold, 3500);
    assert_eq!(config.recent_messages_count, 10);
}
