use rust_agent::error::MemoryError;
use rust_agent::json::JsonValue;
use rust_agent::memory::composite_memory::{Compaction, CompositeMemory, CompositeMemoryConfig};
use rust_agent::memory::message_history::{ChatMessage, LoadOutcome};
use rust_agent::memory::summary::{Summarizer, SummaryRequest};
use std::path::PathBuf;

const T0: &str = "2024-01-01T00:00:00+00:00";
const T1: &str = "2024-01-01T00:00:01+00:00";
const T2: &str = "2024-01-01T00:00:02+00:00";

struct Fixed(Result<String, String>);

impl Summarizer for Fixed {
    fn summarize(&self, _request: &SummaryRequest) -> Result<String, String> {
        self.0.clone()
    }
}

fn memory(threshold: usize, recent: usize, auto: bool) -> CompositeMemory {
    let config = CompositeMemoryConfig {
        data_dir: PathBuf::from("/tmp/memory"),
        session_id: Some("session".to_string()),
        summary_threshold: threshold,
        recent_messages_count: recent,
        auto_generate_summary: auto,
    };
    CompositeMemory::with_config(config, T0.to_string())
}

fn members(key: &str, text: &str) -> Vec<(String, JsonValue)> {
    vec![(key.to_string(), JsonValue::String(text.to_string()))]
}

fn save(m: &mut CompositeMemory, input: &str, output: &str, s: &Fixed) -> Result<Compaction, MemoryError> {
    m.save_turn(input, output, s, T1.to_string(), T1.to_string(), T2.to_string())
}

#[test]
fn test_composite_memory_new() {
    let memory = CompositeMemory::new(T0.to_string());
    assert_eq!(memory.get_session_id().len(), 36);
    assert_eq!(memory.get_message_count(), 0);
}

#[test]
fn test_composite_memory_with_session_id() {
    let session_id = "test_session";
    let memory = CompositeMemory::with_session_id(session_id.to_string(), T0.to_string());
    assert_eq!(memory.get_session_id(), session_id);
}

#[test]
fn test_add_message() {
    let mut memory = memory(3500, 10, false);
    let message = ChatMessage {
        id: "test_id".to_string(),
        role: "user".to_string(),
        content: "Hello, world!".to_string(),
        timestamp: T1.to_string(),
        metadata: None,
    };
    let result = memory.add_message(message, &Fixed(Ok("unused".to_string())), T1.to_string());
    assert!(result.is_ok());
    let count = memory.get_message_count();
    assert_eq!(count, 1);
}

#[test]
fn test_save_context() {
    let mut memory = memory(3500, 10, false);
    let inputs = members("input", "Hello");
    let outputs = members("output", "Hi there!");
    let result = memory.save_context(
        &inputs,
        &outputs,
        &Fixed(Ok("unused".to_string())),
        T1.to_string(),
        T1.to_string(),
        T2.to_string(),
    );
    assert!(result.is_ok());
    let count = memory.get_message_count();
    assert_eq!(count, 2);
}

#[test]
fn test_clear() {
    let mut memory = memory(3500, 10, false);
    let inputs = members("input", "Hello");
    let outputs = members("output", "Hi there!");
    memory
        .save_context(
            &inputs,
            &outputs,
            &Fixed(Ok("unused".to_string())),
            T1.to_string(),
            T1.to_string(),
            T2.to_string(),
        )
        .unwrap();
    let count = memory.get_message_count();
    assert_eq!(count, 2);
    memory.clear(T1.to_string());
    let count = memory.get_message_count();
    assert_eq!(count, 0);
    assert_eq!(memory.get_session_id(), "session");
    assert_eq!(memory.get_summary(), None);
}

#[test]
fn short_turns_do_not_compact_and_long_ones_do() {
    let mut m = memory(50, 3, true);
    let s = Fixed(Ok("a summary".to_string()));
    assert!(matches!(save(&mut m, "hello", "hi", &s), Ok(Compaction::NotDue)));
    assert!(matches!(save(&mut m, "bye", "", &s), Ok(Compaction::NotDue)));
    let (records, summary) = m.load_context();
    assert_eq!(m.get_message_count(), 3);
    assert_eq!(records.len(), 3);
    assert_eq!(records[0].content, "hello");
    assert_eq!(records[1].content, "hi");
    assert_eq!(records[2].content, "bye");
    assert_eq!(summary, None);

    let long = "x".repeat(200);
    assert!(matches!(save(&mut m, &long, "fine", &s), Ok(Compaction::Done)));
    assert_eq!(m.get_summary(), Some("a summary".to_string()));
    assert_eq!(m.summary_memory().load_summary().sequence_number, 5);
    let records = m.message_history().chat_history().get_messages();
    assert_eq!(records.len(), 3);
    assert_eq!(records[0].sequence_number, 3);
    assert_eq!(records[2].sequence_number, 5);
    let (recent, summary) = m.load_context();
    assert_eq!(recent.len(), 3);
    assert_eq!(summary, Some("a summary".to_string()));
}

#[test]
fn both_halves_of_a_turn_are_compacted_together() {
    let mut m = memory(50, 1, true);
    let long = "x".repeat(400);
    let s = Fixed(Ok("sum".to_string()));
    assert!(matches!(save(&mut m, &long, "the answer", &s), Ok(Compaction::Done)));
    assert_eq!(m.summary_memory().load_summary().sequence_number, 2);
    let records = m.message_history().chat_history().get_messages();
    assert_eq!(records.len(), 1);
    assert_eq!(records[0].content, "the answer");
}

#[test]
fn failed_summarizer_keeps_the_turn() {
    let mut m = memory(50, 1, true);
    let long = "x".repeat(400);
    let s = Fixed(Err("timeout".to_string()));
    match save(&mut m, &long, "answer", &s) {
        Ok(Compaction::Failed(reason)) => assert_eq!(reason, "timeout"),
        other => panic!("unexpected {:?}", other),
    }
    assert_eq!(m.get_message_count(), 2);
    assert_eq!(m.get_summary(), None);
    assert_eq!(m.summary_memory().load_summary().sequence_number, 0);
    assert!(!m.summary_memory().compaction_in_flight());
    let ok = Fixed(Ok("later".to_string()));
    assert!(matches!(save(&mut m, "more", "", &ok), Ok(Compaction::Done)));
    assert_eq!(m.summary_memory().load_summary().sequence_number, 3);
}

#[test]
fn disabled_compaction_never_shrinks_the_log() {
    let mut m = memory(1, 1, false);
    let s = Fixed(Ok("unused".to_string()));
    let long = "x".repeat(400);
    for _ in 0..3 {
        assert!(matches!(save(&mut m, &long, &long, &s), Ok(Compaction::NotDue)));
    }
    assert_eq!(m.get_message_count(), 6);
    assert_eq!(m.get_summary(), None);
}

#[test]
fn begin_and_finish_split_a_save_around_the_summarizer() {
    let mut m = memory(50, 1, true);
    let long = "x".repeat(400);
    let request = m
        .begin_save_context(&long, "answer", T1.to_string(), T1.to_string())
        .unwrap()
        .unwrap();
    assert_eq!(request.lines.len(), 2);
    assert_eq!(request.existing_summary, None);
    let none = m.begin_save_context("during", "flight", T1.to_string(), T1.to_string()).unwrap();
    assert!(none.is_none());
    assert_eq!(m.get_message_count(), 4);
    assert_eq!(m.finish_save_context(Ok("sum".to_string()), T2.to_string()), Ok(true));
    assert_eq!(m.summary_memory().load_summary().sequence_number, 2);
    let kept = m.message_history().chat_history().get_messages();
    assert_eq!(kept.len(), 2);
    assert_eq!(kept[0].content, "during");
    assert_eq!(kept[0].sequence_number, 3);
    assert_eq!(kept[1].content, "flight");
    assert_eq!(kept[1].sequence_number, 4);
    assert_eq!(
        m.finish_save_context(Ok("again".to_string()), T2.to_string()),
        Err(MemoryError::NoCompactionInFlight)
    );
}

#[test]
fn restore_takes_in_both_files_and_keeps_numbers_above_the_checkpoint() {
    let mut m = memory(50, 0, true);
    let long = "x".repeat(400);
    let s = Fixed(Ok("sum".to_string()));
    assert!(matches!(save(&mut m, &long, "answer", &s), Ok(Compaction::Done)));
    assert_eq!(m.get_message_count(), 0);
    let log_text = m.message_history().chat_history().save_session_history().unwrap();
    let summary_text = m.summary_memory().summary_document().unwrap();

    let mut fresh = memory(50, 0, true);
    assert_eq!(
        fresh.restore(Some(&log_text), Some(&summary_text), T2),
        Ok(LoadOutcome::Loaded)
    );
    assert_eq!(fresh.get_summary(), Some("sum".to_string()));
    assert_eq!(fresh.message_history().chat_history().next_sequence_number(), 3);
    assert!(matches!(save(&mut fresh, "next", "", &s), Ok(Compaction::NotDue)));
    assert_eq!(fresh.message_history().chat_history().get_messages()[0].sequence_number, 3);

    let mut other = memory(50, 0, true);
    assert_eq!(other.restore(None, None, T2), Ok(LoadOutcome::Empty));
    assert_eq!(other.restore(Some("garbage"), Some(&summary_text), T2), Err(MemoryError::UnreadableHistory));
    assert_eq!(other.get_summary(), None);
    assert_eq!(other.restore(Some(&log_text), Some("garbage"), T2), Err(MemoryError::UnreadableSummary));
    assert_eq!(other.get_message_count(), 0);
}

#[test]
fn stats_have_no_side_effects() {
    let mut m = memory(50, 2, true);
    let s = Fixed(Ok("sum".to_string()));
    save(&mut m, "hello", "hi", &s).unwrap();
    let before = m.message_history().chat_history().save_session_history().unwrap();
    let stats = m.get_memory_stats();
    let history = stats.get("message_history").unwrap();
    assert_eq!(history.get("message_count").unwrap().as_u64(), Some(2));
    let summary = stats.get("summary_memory").unwrap();
    assert!(matches!(summary.get("has_summary").unwrap(), JsonValue::Bool(false)));
    assert_eq!(summary.get("token_count").unwrap().as_u64(), Some(0));
    let config = stats.get("config").unwrap();
    assert_eq!(config.get("summary_threshold").unwrap().as_u64(), Some(50));
    assert_eq!(config.get("recent_messages_count").unwrap().as_u64(), Some(2));
    assert_eq!(m.message_history().chat_history().save_session_history().unwrap(), before);
}

#[test]
fn load_memory_variables_hands_out_history_summary_and_config() {
    let mut m = memory(50, 2, true);
    let s = Fixed(Ok("sum".to_string()));
    save(&mut m, "hello", "hi", &s).unwrap();
    let inputs = members("input", "next question");
    let variables = m.load_memory_variables(&inputs).unwrap();
    let names: Vec<&str> = variables.iter().map(|(k, _)| k.as_str()).collect();
    assert_eq!(names, vec!["chat_history", "input", "config"]);
    let history = match &variables[0].1 {
        JsonValue::Array(items) => items,
        _ => panic!("chat_history is an array"),
    };
    assert_eq!(history.len(), 2);
    assert_eq!(history[0].get("role").unwrap().as_str(), Some("user"));
    assert_eq!(history[0].get("content").unwrap().as_str(), Some("hello"));
    assert_eq!(history[0].get("id").unwrap().as_str(), Some("1"));
    assert_eq!(history[1].get("id").unwrap().as_str(), Some("2"));
    let again = m.load_memory_variables(&inputs).unwrap();
    assert_eq!(
        rust_agent::memory::utils::serialize_to_string(&JsonValue::Object(again)),
        rust_agent::memory::utils::serialize_to_string(&JsonValue::Object(
            m.load_memory_variables(&inputs).unwrap()
        ))
    );
    assert!(history[0].get("metadata").unwrap().is_null());
    assert_eq!(variables[1].1.as_str(), Some("next question"));
    assert_eq!(variables[2].1.get("data_dir").unwrap().as_str(), Some("/tmp/memory"));
    assert_eq!(variables[2].1.get("session_id").unwrap().as_str(), Some("session"));
    assert!(m.get_token_count() > 0);
}

#[test]
fn cleanup_sheds_old_records_on_request() {
    let mut m = memory(10000, 1, true);
    let s = Fixed(Ok("sum".to_string()));
    save(&mut m, "a", "b", &s).unwrap();
    save(&mut m, "c", "d", &s).unwrap();
    assert_eq!(m.get_message_count(), 4);
    m.cleanup_old_messages(T2.to_string());
    assert_eq!(m.get_message_count(), 1);
    let recent = m.get_recent_messages(5);
    assert_eq!(recent.len(), 1);
    assert_eq!(recent[0].content, "d");
    assert_eq!(recent[0].role, "assistant");
}

#[test]
fn saving_members_remembers_them_and_the_configuration_names_the_session() {
    let mut m = memory(50, 2, false);
    let s = Fixed(Ok("unused".to_string()));
    m.save_context(
        &members("input", "question"),
        &members("output", "answer"),
        &s,
        T1.to_string(),
        T1.to_string(),
        T2.to_string(),
    )
    .unwrap();
    let before = m.get_token_count();
    m.remember_context(&members("input", "a much longer question than before"), &vec![]);
    assert!(m.get_token_count() > before);
    assert_eq!(m.config().session_id, Some("session".to_string()));
    m.set_session_id("renamed".to_string());
    assert_eq!(m.config().session_id, Some("renamed".to_string()));
    let generated = CompositeMemory::new(T0.to_string());
    assert_eq!(
        generated.config().session_id.as_deref(),
        Some(generated.get_session_id())
    );
}
