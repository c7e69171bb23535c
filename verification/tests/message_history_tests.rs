use rust_agent::error::MemoryError;
use rust_agent::json::{JsonNumber, JsonValue};
use rust_agent::memory::message_history::{
    ChatMessage, FileChatMessageHistory, LoadOutcome, MessageHistoryMemory, Role,
};

const T0: &str = "2024-01-01T00:00:00+00:00";
const T1: &str = "2024-01-01T00:00:01+00:00";

fn new_log() -> FileChatMessageHistory {
    FileChatMessageHistory::new("s1".to_string(), T0.to_string())
}

#[test]
fn appends_number_records_from_one_without_gaps() {
    let mut log = new_log();
    for i in 0..5u64 {
        let stored = log
            .add_user_message(format!("message {}", i), T1.to_string())
            .unwrap();
        assert_eq!(stored, Some(i + 1));
    }
    let records = log.get_messages();
    assert_eq!(records.len(), 5);
    for (i, r) in records.iter().enumerate() {
        assert_eq!(r.sequence_number, i as u64 + 1);
        assert_eq!(r.content, format!("message {}", i));
        assert_eq!(r.role, "user");
        assert_eq!(r.timestamp, T1);
    }
    assert_eq!(log.next_sequence_number(), 6);
}

#[test]
fn blank_content_is_dropped_and_takes_no_number() {
    let mut log = new_log();
    assert_eq!(log.add_user_message("".to_string(), T1.to_string()), Ok(None));
    assert_eq!(log.add_user_message("  \n\t ".to_string(), T1.to_string()), Ok(None));
    assert_eq!(log.len(), 0);
    assert_eq!(log.next_sequence_number(), 1);
    assert_eq!(log.add_user_message("hi".to_string(), T1.to_string()), Ok(Some(1)));
    assert_eq!(log.add_ai_message("   ", T1.to_string()), Ok(None));
    assert_eq!(log.add_ai_message("there", T1.to_string()), Ok(Some(2)));
    assert_eq!(log.len(), 2);
}

#[test]
fn recent_returns_the_last_records_in_order() {
    let mut log = new_log();
    for i in 0..4 {
        log.add_user_message(format!("m{}", i), T1.to_string()).unwrap();
    }
    let last_two = log.get_recent_messages(2);
    assert_eq!(last_two.len(), 2);
    assert_eq!(last_two[0].content, "m2");
    assert_eq!(last_two[1].content, "m3");
    assert_eq!(log.get_recent_messages(10).len(), 4);
    assert_eq!(log.get_recent_messages(0).len(), 0);
}

#[test]
fn retain_recent_keeps_the_last_records_and_their_numbers() {
    let mut log = new_log();
    for i in 0..5 {
        log.add_user_message(format!("m{}", i), T1.to_string()).unwrap();
    }
    assert!(log.keep_recent_messages(2, T1.to_string()));
    let records = log.get_messages();
    assert_eq!(records.len(), 2);
    assert_eq!(records[0].content, "m3");
    assert_eq!(records[0].sequence_number, 4);
    assert_eq!(records[1].content, "m4");
    assert_eq!(records[1].sequence_number, 5);
    assert!(!log.keep_recent_messages(2, T1.to_string()));
    assert!(!log.keep_recent_messages(7, T1.to_string()));
    assert_eq!(log.get_messages().len(), 2);
    assert_eq!(log.add_user_message("next".to_string(), T1.to_string()), Ok(Some(6)));
}

#[test]
fn clear_empties_the_log_and_restarts_the_numbering() {
    let mut log = new_log();
    log.add_user_message("a".to_string(), T1.to_string()).unwrap();
    log.add_user_message("b".to_string(), T1.to_string()).unwrap();
    log.clear(T1.to_string());
    assert_eq!(log.len(), 0);
    assert_eq!(log.next_sequence_number(), 1);
    assert_eq!(log.session_id(), "s1");
    assert_eq!(log.add_user_message("c".to_string(), T1.to_string()), Ok(Some(1)));
}

#[test]
fn stored_document_loads_back_with_the_same_records() {
    let mut log = new_log();
    log.add_user_message("Hello \"quoted\" \\ text".to_string(), T1.to_string()).unwrap();
    log.add_ai_message("Hi 你好\nsecond line", T1.to_string()).unwrap();
    log.add_message(
        "tool".to_string(),
        "result".to_string(),
        Some("calculator".to_string()),
        Some(vec![
            ("tool_call_id".to_string(), JsonValue::String("call_1".to_string())),
            ("attempt".to_string(), JsonValue::Number(JsonNumber::PosInt(3))),
            ("nested".to_string(), JsonValue::Array(vec![JsonValue::Null, JsonValue::Bool(true)])),
        ]),
        T0.to_string(),
        T1.to_string(),
    )
    .unwrap();
    let text = log.save_session_history().unwrap();
    assert!(text.contains("\"session_id\": \"s1\""));

    let mut reloaded = FileChatMessageHistory::new("other".to_string(), T1.to_string());
    assert_eq!(reloaded.load_session_history(&text, T1), Ok(LoadOutcome::Loaded));
    assert_eq!(reloaded.session_id(), "s1");
    let a = log.get_messages();
    let b = reloaded.get_messages();
    assert_eq!(a.len(), b.len());
    for (x, y) in a.iter().zip(b.iter()) {
        assert_eq!(x.role, y.role);
        assert_eq!(x.content, y.content);
        assert_eq!(x.name, y.name);
        assert_eq!(x.timestamp, y.timestamp);
        assert_eq!(x.sequence_number, y.sequence_number);
    }
    let kwargs = b[2].additional_kwargs.as_ref().unwrap();
    assert_eq!(kwargs.len(), 3);
    assert_eq!(reloaded.next_sequence_number(), 4);
    assert_eq!(reloaded.save_session_history().unwrap(), text);
}

#[test]
fn loading_twice_gives_the_same_log() {
    let mut log = new_log();
    log.add_user_message("one".to_string(), T1.to_string()).unwrap();
    log.add_ai_message("two", T1.to_string()).unwrap();
    let text = log.save_session_history().unwrap();

    let mut first = new_log();
    first.load_session_history(&text, T0).unwrap();
    let once = first.save_session_history().unwrap();
    first.load_session_history(&text, T1).unwrap();
    let twice = first.save_session_history().unwrap();
    assert_eq!(once, twice);
    assert_eq!(once, text);
}

#[test]
fn empty_file_changes_nothing() {
    let mut log = new_log();
    log.add_user_message("one".to_string(), T1.to_string()).unwrap();
    assert_eq!(log.load_session_history("", T1), Ok(LoadOutcome::Empty));
    assert_eq!(log.load_session_history("  \n ", T1), Ok(LoadOutcome::Empty));
    assert_eq!(log.len(), 1);
}

#[test]
fn legacy_file_is_migrated_without_the_artifact() {
    let legacy = "{\"role\":\"user\",\"content\":\"What is Rust?\"}\n{\"role\":\"assistant\",\"content\":\"user: What is Rust?\\nassistant: A language.\"}\n";
    let mut log = new_log();
    assert_eq!(log.load_session_history(legacy, T1), Ok(LoadOutcome::Migrated));
    let records = log.get_messages();
    assert_eq!(records.len(), 1);
    assert_eq!(records[0].role, "user");
    assert_eq!(records[0].content, "What is Rust?");
    assert_eq!(records[0].sequence_number, 1);
    assert_eq!(records[0].timestamp, T1);
    assert_eq!(log.next_sequence_number(), 2);

    let text = log.save_session_history().unwrap();
    let mut again = new_log();
    assert_eq!(again.load_session_history(&text, T0), Ok(LoadOutcome::Loaded));
    assert_eq!(again.get_messages().len(), 1);
    assert_eq!(again.get_messages()[0].sequence_number, 1);
}

#[test]
fn legacy_lines_are_numbered_in_line_order() {
    let legacy = "{\"role\":\"user\",\"content\":\"a\",\"timestamp\":\"t-a\"}\r\n\r\nnot json\n{\"role\":\"assistant\",\"content\":\"b\",\"name\":\"bot\",\"additional_kwargs\":{\"k\":1}}\n{\"role\":\"user\"}\n{\"role\":\"user\",\"content\":\"  \"}\n{\"role\":\"user\",\"content\":\"c\",\"additional_kwargs\":null}";
    let mut log = new_log();
    assert_eq!(log.load_session_history(legacy, T1), Ok(LoadOutcome::Migrated));
    let records = log.get_messages();
    assert_eq!(records.len(), 3);
    assert_eq!(records[0].content, "a");
    assert_eq!(records[0].timestamp, "t-a");
    assert_eq!(records[0].sequence_number, 1);
    assert_eq!(records[1].content, "b");
    assert_eq!(records[1].name, Some("bot".to_string()));
    assert_eq!(records[1].additional_kwargs.as_ref().unwrap().len(), 1);
    assert_eq!(records[1].sequence_number, 2);
    assert_eq!(records[2].content, "c");
    assert!(records[2].additional_kwargs.is_none());
    assert_eq!(records[2].sequence_number, 3);
}

#[test]
fn legacy_lines_with_numbers_go_to_their_place() {
    let legacy = "{\"role\":\"user\",\"content\":\"third\",\"timestamp\":\"t\",\"sequence_number\":3}\n{\"role\":\"user\",\"content\":\"first\",\"timestamp\":\"t\",\"sequence_number\":1}\n{\"role\":\"user\",\"content\":\"bare\"}\n";
    let mut log = new_log();
    assert_eq!(log.load_session_history(legacy, T1), Ok(LoadOutcome::Migrated));
    let records = log.get_messages();
    assert_eq!(records.len(), 3);
    assert_eq!(records[0].content, "first");
    assert_eq!(records[1].content, "third");
    assert_eq!(records[2].content, "bare");
    assert_eq!(records[2].sequence_number, 4);
    assert_eq!(log.next_sequence_number(), 5);
}

#[test]
fn unreadable_file_is_an_error_and_leaves_the_log() {
    let mut log = new_log();
    log.add_user_message("kept".to_string(), T1.to_string()).unwrap();
    assert_eq!(
        log.load_session_history("this is not json\nnor this", T1),
        Err(MemoryError::UnreadableHistory)
    );
    let duplicate = "{\"role\":\"user\",\"content\":\"a\",\"timestamp\":\"t\",\"sequence_number\":2}\n{\"role\":\"user\",\"content\":\"b\",\"timestamp\":\"t\",\"sequence_number\":2}\n";
    assert_eq!(log.load_session_history(duplicate, T1), Err(MemoryError::UnreadableHistory));
    assert_eq!(log.len(), 1);
    assert_eq!(log.get_messages()[0].content, "kept");
}

#[test]
fn assistant_answers_are_unwrapped() {
    let mut log = new_log();
    log.add_ai_message("\"quoted answer\"", T1.to_string()).unwrap();
    log.add_ai_message("{\"content\": \"inner\", \"other\": 1}", T1.to_string()).unwrap();
    log.add_ai_message("{\"other\": 1}", T1.to_string()).unwrap();
    log.add_ai_message("{not json}", T1.to_string()).unwrap();
    log.add_ai_message("plain", T1.to_string()).unwrap();
    let records = log.get_messages();
    assert_eq!(records[0].content, "quoted answer");
    assert_eq!(records[1].content, "inner");
    assert_eq!(records[2].content, "{\"other\": 1}");
    assert_eq!(records[3].content, "{not json}");
    assert_eq!(records[4].content, "plain");
    assert!(records.iter().all(|r| r.role == "assistant"));
}

#[test]
fn message_metadata_becomes_additional_fields_without_type() {
    let log = new_log();
    let mut memory = MessageHistoryMemory::new_with_recent_count("s1".to_string(), log, 2);
    let message = ChatMessage {
        id: "id-1".to_string(),
        role: "tool".to_string(),
        content: "42".to_string(),
        timestamp: T0.to_string(),
        metadata: Some(JsonValue::Object(vec![
            ("type".to_string(), JsonValue::String("tool".to_string())),
            ("tool_call_id".to_string(), JsonValue::String("c1".to_string())),
        ])),
    };
    assert_eq!(memory.add_message(&message, T1.to_string()), Ok(Some(1)));
    let records = memory.get_default_recent_messages();
    assert_eq!(records.len(), 1);
    let kwargs = records[0].additional_kwargs.as_ref().unwrap();
    assert_eq!(kwargs.len(), 1);
    assert_eq!(kwargs[0].0, "tool_call_id");
    assert_eq!(records[0].timestamp, T0);
    assert_eq!(memory.get_message_count(), 1);
    assert_eq!(memory.get_session_id(), "s1");
}

#[test]
fn roles_are_stored_by_name() {
    for role in [Role::System, Role::User, Role::Assistant, Role::Tool] {
        assert_eq!(Role::parse(role.as_str()), Some(role));
    }
    assert_eq!(Role::Tool.as_str(), "tool");
    assert_eq!(Role::parse("human"), None);
    assert_eq!(Role::parse("User"), None);
    let mut log = new_log();
    assert_eq!(log.add_role_message(Role::System, "be kind".to_string(), T1.to_string()), Ok(Some(1)));
    log.add_message("narrator".to_string(), "once".to_string(), None, None, T1.to_string(), T1.to_string())
        .unwrap();
    let records = log.get_messages();
    assert_eq!(records[0].role, "system");
    assert_eq!(records[0].role_kind(), Some(Role::System));
    assert_eq!(records[1].role_kind(), None);
}

#[test]
fn memory_takes_its_recent_count_from_the_environment_value() {
    let memory = MessageHistoryMemory::new("s1".to_string(), new_log(), Some("3"));
    assert_eq!(memory.default_recent_count(), 3);
    let memory = MessageHistoryMemory::new("s1".to_string(), new_log(), None);
    assert_eq!(memory.default_recent_count(), 10);
}

#[test]
fn a_log_without_numbers_left_refuses_appends() {
    let document = "{\"session_id\":\"s1\",\"created_at\":\"t\",\"updated_at\":\"t\",\"messages\":[{\"role\":\"user\",\"content\":\"last\",\"timestamp\":\"t\",\"sequence_number\":18446744073709551614}]}";
    let mut log = new_log();
    assert_eq!(log.load_session_history(document, T1), Ok(LoadOutcome::Loaded));
    assert_eq!(log.next_sequence_number(), u64::MAX);
    assert_eq!(
        log.add_user_message("one more".to_string(), T1.to_string()),
        Err(MemoryError::SequenceExhausted)
    );
    assert_eq!(log.add_user_message("  ".to_string(), T1.to_string()), Ok(None));
    assert_eq!(log.len(), 1);
    let mut memory = MessageHistoryMemory::new_with_recent_count("s1".to_string(), log, 5);
    assert_eq!(
        memory.add_turn("question", "answer", T1.to_string(), T1.to_string()),
        Err(MemoryError::SequenceExhausted)
    );
    assert_eq!(memory.add_turn("", " ", T1.to_string(), T1.to_string()), Ok(()));
    assert_eq!(memory.get_message_count(), 1);
    assert_eq!(MemoryError::SequenceExhausted.message(), "the session has no sequence numbers left");
}

#[test]
fn a_document_with_records_out_of_order_is_no_session_document() {
    let document = "{\"session_id\":\"s1\",\"created_at\":\"t\",\"updated_at\":\"t\",\"messages\":[{\"role\":\"user\",\"content\":\"b\",\"timestamp\":\"t\",\"sequence_number\":2},{\"role\":\"user\",\"content\":\"a\",\"timestamp\":\"t\",\"sequence_number\":1}]}";
    let mut log = new_log();
    assert_eq!(log.load_session_history(document, T1), Err(MemoryError::UnreadableHistory));
    let blank = "{\"session_id\":\"s1\",\"created_at\":\"t\",\"updated_at\":\"t\",\"messages\":[{\"role\":\"user\",\"content\":\" \",\"timestamp\":\"t\",\"sequence_number\":1}]}";
    assert_eq!(log.load_session_history(blank, T1), Err(MemoryError::UnreadableHistory));
    let missing = "{\"session_id\":\"s1\",\"created_at\":\"t\",\"messages\":[]}";
    assert_eq!(log.load_session_history(missing, T1), Err(MemoryError::UnreadableHistory));
    let empty = "{\"session_id\":\"s9\",\"created_at\":\"t\",\"updated_at\":\"u\",\"messages\":[],\"metadata\":null}";
    assert_eq!(log.load_session_history(empty, T1), Ok(LoadOutcome::Loaded));
    assert_eq!(log.session_id(), "s9");
    assert_eq!(log.next_sequence_number(), 1);
}

#[test]
fn a_legacy_file_of_artifacts_alone_is_migrated_to_an_empty_log() {
    let legacy = "{\"role\":\"assistant\",\"content\":\"user: a assistant: b\"}";
    let mut log = new_log();
    log.add_user_message("replaced".to_string(), T1.to_string()).unwrap();
    assert_eq!(log.load_session_history(legacy, T1), Ok(LoadOutcome::Migrated));
    assert_eq!(log.get_messages().len(), 0);
    assert_eq!(log.next_sequence_number(), 1);
    let text = log.save_session_history().unwrap();
    let mut again = new_log();
    assert_eq!(again.load_session_history(&text, T0), Ok(LoadOutcome::Loaded));
    assert_eq!(again.len(), 0);

    let blank_content = "{\"role\":\"user\",\"content\":\"  \"}\n\n";
    let mut log = new_log();
    assert_eq!(log.load_session_history(blank_content, T1), Ok(LoadOutcome::Migrated));
    assert_eq!(log.len(), 0);

    let mixed = "{\"role\":\"assistant\",\"content\":\"user: a assistant: b\"}\nnot json";
    let mut log = new_log();
    assert_eq!(log.load_session_history(mixed, T1), Err(MemoryError::UnreadableHistory));
    let no_record = "{\"role\":\"user\"}\n[1, 2]";
    assert_eq!(log.load_session_history(no_record, T1), Err(MemoryError::UnreadableHistory));
}
