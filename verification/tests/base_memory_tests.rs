use rust_agent::error::MemoryError;
use rust_agent::json::{json_string, JsonValue};
use rust_agent::memory::backend::BaseMemory;
use rust_agent::memory::base::SimpleMemory;
use rust_agent::memory::composite_memory::{Compaction, CompositeMemory, CompositeMemoryConfig};
use rust_agent::memory::message_history::{FileChatMessageHistory, MessageHistoryMemory};
use rust_agent::memory::summary::{Summarizer, SummaryRequest};
use rust_agent::memory::utils::parse_timestamp;
use std::path::PathBuf;

struct Fixed;

impl Summarizer for Fixed {
    fn summarize(&self, _request: &SummaryRequest) -> Result<String, String> {
        Ok("summary".to_string())
    }
}

fn members(key: &str, text: &str) -> Vec<(String, JsonValue)> {
    vec![(key.to_string(), json_string(text))]
}

#[test]
fn simple_memory_keeps_turns_as_human_and_ai_messages() {
    let mut memory = SimpleMemory::new();
    assert_eq!(memory.get_memory_key(), "chat_history");
    memory.save_context(&members("input", "hello"), &members("output", "hi"));
    memory.save_context(&members("input", "bye"), &vec![]);
    let variables = memory.load_memory_variables();
    assert_eq!(variables.len(), 1);
    assert_eq!(variables[0].0, "chat_history");
    let items = match &variables[0].1 {
        JsonValue::Array(items) => items,
        _ => panic!("chat_history is an array"),
    };
    assert_eq!(items.len(), 3);
    assert_eq!(items[0].str_at("role"), Some("human"));
    assert_eq!(items[0].str_at("content"), Some("hello"));
    assert_eq!(items[1].str_at("role"), Some("ai"));
    assert_eq!(items[1].str_at("content"), Some("hi"));
    assert_eq!(items[2].str_at("content"), Some("bye"));
    memory.clear();
    assert_eq!(memory.load_memory_variables().len(), 0);
}

#[test]
fn simple_memory_appends_messages_and_replaces_what_is_no_array() {
    let mut memory = SimpleMemory::with_memories(vec![
        ("other".to_string(), json_string("kept")),
        ("chat_history".to_string(), json_string("not an array")),
    ]);
    memory.add_message(json_string("first"));
    memory.add_message(json_string("second"));
    let variables = memory.load_memory_variables();
    assert_eq!(variables.len(), 2);
    assert_eq!(variables[0].1.as_str(), Some("kept"));
    match &variables[1].1 {
        JsonValue::Array(items) => {
            assert_eq!(items.len(), 2);
            assert_eq!(items[0].as_str(), Some("first"));
            assert_eq!(items[1].as_str(), Some("second"));
        }
        _ => panic!("chat_history is an array"),
    }
    let keyed = SimpleMemory::with_memory_key("log".to_string());
    assert_eq!(keyed.memory_variables(), vec!["log".to_string()]);
    assert_eq!(keyed.get_session_id(), None);
    assert_eq!(keyed.get_token_count(), 3);
}

#[test]
fn every_kind_of_memory_answers_the_same_calls() {
    let log = FileChatMessageHistory::new("s".to_string(), "t".to_string());
    let config = CompositeMemoryConfig {
        data_dir: PathBuf::from("/tmp/memory"),
        session_id: Some("session".to_string()),
        summary_threshold: 50,
        recent_messages_count: 1,
        auto_generate_summary: true,
    };
    let mut kinds = vec![
        BaseMemory::Simple(SimpleMemory::new()),
        BaseMemory::FileBacked(MessageHistoryMemory::new_with_recent_count("s".to_string(), log, 5)),
        BaseMemory::Composite(CompositeMemory::with_config(config, "t".to_string())),
    ];
    let long = "x".repeat(400);
    for memory in kinds.iter_mut() {
        let saved = memory
            .save_context(
                &members("input", &long),
                &members("output", "\"quoted\""),
                &Fixed,
                "t1".to_string(),
                "t2".to_string(),
                "t3".to_string(),
            )
            .unwrap();
        let is_composite = matches!(memory, BaseMemory::Composite(_));
        assert_eq!(matches!(saved, Compaction::Done), is_composite);
        assert_eq!(memory.get_summary().is_some(), is_composite);
        let variables = memory.load_memory_variables(&vec![]).unwrap();
        assert_eq!(variables[0].0, "chat_history");
        memory.set_session_id("renamed".to_string());
        assert_eq!(memory.get_session_id(), Some("renamed"));
        assert!(memory.get_token_count() > 0);
        memory.clear("t4".to_string());
        assert_eq!(memory.get_summary(), None);
    }
    match &kinds[1] {
        BaseMemory::FileBacked(m) => assert_eq!(m.get_message_count(), 0),
        _ => panic!("file-backed"),
    }
}

#[test]
fn file_backed_memory_unwraps_quoted_answers() {
    let log = FileChatMessageHistory::new("s".to_string(), "t".to_string());
    let mut memory = MessageHistoryMemory::new_with_recent_count("s".to_string(), log, 5);
    memory
        .save_context(
            &members("input", "q"),
            &members("output", "{\"content\": \"\\\"inner\\\"\"}"),
            "t1".to_string(),
            "t2".to_string(),
        )
        .unwrap();
    let records = memory.get_recent_messages(5);
    assert_eq!(records.len(), 2);
    assert_eq!(records[0].role, "user");
    assert_eq!(records[0].timestamp, "t1");
    assert_eq!(records[1].content, "inner");
    assert_eq!(records[1].timestamp, "t2");
    let variables = memory.load_memory_variables();
    match &variables[0].1 {
        JsonValue::Array(items) => {
            assert_eq!(items.len(), 2);
            assert_eq!(items[1].str_at("role"), Some("assistant"));
        }
        _ => panic!("chat_history is an array"),
    }
    let chat = memory.get_recent_chat_messages(1);
    assert_eq!(chat.len(), 1);
    assert_eq!(chat[0].content, "inner");
    assert_eq!(chat[0].id, "2");
    assert_eq!(chat[0].timestamp, "t2");
    let again = memory.get_recent_chat_messages(1);
    assert_eq!(again[0].id, chat[0].id);
    assert!(chat[0].metadata.is_none());
}

#[test]
fn timestamps_are_read_as_points_in_time() {
    let time = parse_timestamp("1970-01-01T00:00:01.5+00:00").unwrap();
    assert_eq!(time.seconds, 1);
    assert_eq!(time.nanoseconds, 500_000_000);
    let shifted = parse_timestamp("1970-01-01T01:00:00+01:00").unwrap();
    assert_eq!(shifted.seconds, 0);
    assert_eq!(parse_timestamp("yesterday"), Err(MemoryError::InvalidTimestamp));
}
