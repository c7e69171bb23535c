use rust_agent::error::MemoryError;
use rust_agent::json::{JsonNumber, JsonValue};
use rust_agent::memory::message_history::{FileChatMessageHistory, MessageHistoryMemory};
use rust_agent::memory::summary::{
    join_lines, pending_messages, render_records, Summarizer, SummaryMemory, SummaryRequest,
};
use std::cell::RefCell;

const T0: &str = "2024-01-01T00:00:00+00:00";
const T1: &str = "2024-01-01T00:00:01+00:00";

struct FixedSummarizer {
    answer: Result<String, String>,
    seen: RefCell<Vec<(Option<String>, Vec<String>)>>,
}

impl FixedSummarizer {
    fn ok(text: &str) -> Self {
        FixedSummarizer { answer: Ok(text.to_string()), seen: RefCell::new(Vec::new()) }
    }

    fn failing(reason: &str) -> Self {
        FixedSummarizer { answer: Err(reason.to_string()), seen: RefCell::new(Vec::new()) }
    }
}

impl Summarizer for FixedSummarizer {
    fn summarize(&self, request: &SummaryRequest) -> Result<String, String> {
        self.seen
            .borrow_mut()
            .push((request.existing_summary.clone(), request.lines.clone()));
        self.answer.clone()
    }
}

fn history_with(contents: &[&str], recent: usize) -> MessageHistoryMemory {
    let mut log = FileChatMessageHistory::new("s1".to_string(), T0.to_string());
    for (i, c) in contents.iter().enumerate() {
        if i % 2 == 0 {
            log.add_user_message(c.to_string(), T1.to_string()).unwrap();
        } else {
            log.add_ai_message(c, T1.to_string()).unwrap();
        }
    }
    MessageHistoryMemory::new_with_recent_count("s1".to_string(), log, recent)
}

fn member<'a>(doc: &'a JsonValue, key: &str) -> &'a JsonValue {
    doc.get(key).unwrap()
}

#[test]
fn update_rejects_a_checkpoint_that_does_not_rise() {
    let mut store = SummaryMemory::new("s1".to_string(), 50, 2, T0.to_string());
    assert_eq!(
        store.save_summary("zero", 0, T1.to_string()),
        Err(MemoryError::CheckpointRegression)
    );
    assert_eq!(store.load_summary().summary, None);
    assert_eq!(store.save_summary("first", 3, T1.to_string()), Ok(()));
    assert_eq!(
        store.save_summary("same", 3, T1.to_string()),
        Err(MemoryError::CheckpointRegression)
    );
    assert_eq!(
        store.save_summary("lower", 2, T1.to_string()),
        Err(MemoryError::CheckpointRegression)
    );
    let data = store.load_summary();
    assert_eq!(data.sequence_number, 3);
    assert_eq!(data.summary, Some("first".to_string()));
    assert_eq!(data.token_count, 1);
    assert_eq!(data.last_updated, T1);
    assert_eq!(store.save_summary("a longer second summary", 4, T0.to_string()), Ok(()));
    let data = store.load_summary();
    assert_eq!(data.sequence_number, 4);
    assert_eq!(data.token_count, 5);
}

#[test]
fn load_gives_the_zero_value_before_any_summary() {
    let store = SummaryMemory::new("s1".to_string(), 50, 2, T0.to_string());
    let data = store.load_summary();
    assert_eq!(data.session_id, "s1");
    assert_eq!(data.sequence_number, 0);
    assert_eq!(data.summary, None);
    assert_eq!(data.token_count, 0);
    assert_eq!(data.last_updated, T0);
}

#[test]
fn clear_reverts_to_the_zero_value() {
    let mut store = SummaryMemory::new("s1".to_string(), 50, 2, T0.to_string());
    store.save_summary("text", 9, T1.to_string()).unwrap();
    store.clear_summary(T1.to_string());
    let data = store.load_summary();
    assert_eq!(data.sequence_number, 0);
    assert_eq!(data.summary, None);
    assert_eq!(store.save_summary("again", 1, T1.to_string()), Ok(()));
}

#[test]
fn pending_tail_is_rendered_as_role_and_content_lines() {
    let history = history_with(&["hello", "hi there", "how are you"], 10);
    let all = history.chat_history().get_messages();
    let tail = pending_messages(&all, 1);
    assert_eq!(tail.len(), 2);
    assert_eq!(tail[0].sequence_number, 2);
    let lines = render_records(&tail);
    assert_eq!(lines, vec!["assistant: hi there".to_string(), "user: how are you".to_string()]);
    assert_eq!(join_lines(&lines), "assistant: hi there\nuser: how are you\n");
    assert_eq!(pending_messages(&all, 3).len(), 0);
}

#[test]
fn compaction_below_the_threshold_changes_nothing() {
    let mut history = history_with(&["hello", "hi", "bye"], 2);
    let mut store = SummaryMemory::new("s1".to_string(), 50, 2, T0.to_string());
    let before_log = history.chat_history().save_session_history().unwrap();
    let before_store = store.summary_document().unwrap();
    let summarizer = FixedSummarizer::ok("never used");
    assert_eq!(
        store.check_and_generate_summary(&mut history, &summarizer, T1.to_string()),
        Ok(false)
    );
    assert_eq!(summarizer.seen.borrow().len(), 0);
    assert_eq!(history.chat_history().save_session_history().unwrap(), before_log);
    assert_eq!(store.summary_document().unwrap(), before_store);
    assert!(!store.compaction_in_flight());
}

#[test]
fn compaction_at_the_threshold_stores_the_summary_and_sheds_records() {
    let long = "x".repeat(200);
    let mut history = history_with(&["hello", "hi", long.as_str(), "ok"], 2);
    let mut store = SummaryMemory::new("s1".to_string(), 50, 2, T0.to_string());
    let summarizer = FixedSummarizer::ok("they greeted each other");
    assert_eq!(
        store.check_and_generate_summary(&mut history, &summarizer, T1.to_string()),
        Ok(true)
    );
    let seen = summarizer.seen.borrow();
    assert_eq!(seen.len(), 1);
    assert_eq!(seen[0].0, None);
    assert_eq!(seen[0].1.len(), 4);
    assert_eq!(seen[0].1[0], "user: hello");
    assert_eq!(seen[0].1[1], "assistant: hi");
    let data = store.load_summary();
    assert_eq!(data.sequence_number, 4);
    assert_eq!(data.summary, Some("they greeted each other".to_string()));
    assert_eq!(data.token_count, 5);
    let records = history.chat_history().get_messages();
    assert_eq!(records.len(), 2);
    assert_eq!(records[0].sequence_number, 3);
    assert_eq!(records[1].sequence_number, 4);
    assert_eq!(history.chat_history().next_sequence_number(), 5);

    let again = FixedSummarizer::ok("unused");
    assert_eq!(
        store.check_and_generate_summary(&mut history, &again, T1.to_string()),
        Ok(false)
    );
    assert_eq!(again.seen.borrow().len(), 0);
}

#[test]
fn second_compaction_hands_the_existing_summary_on() {
    let long = "y".repeat(400);
    let mut history = history_with(&[long.as_str()], 1);
    let mut store = SummaryMemory::new("s1".to_string(), 50, 1, T0.to_string());
    let first = FixedSummarizer::ok("first summary");
    assert_eq!(store.check_and_generate_summary(&mut history, &first, T1.to_string()), Ok(true));
    let mut log = FileChatMessageHistory::new("s1".to_string(), T0.to_string());
    log.load_session_history(&history.chat_history().save_session_history().unwrap(), T1)
        .unwrap();
    log.add_ai_message(&long, T1.to_string()).unwrap();
    let mut history = MessageHistoryMemory::new_with_recent_count("s1".to_string(), log, 1);
    let second = FixedSummarizer::ok("second summary");
    assert_eq!(store.check_and_generate_summary(&mut history, &second, T1.to_string()), Ok(true));
    let seen = second.seen.borrow();
    assert_eq!(seen[0].0, Some("first summary".to_string()));
    assert_eq!(seen[0].1.len(), 1);
    assert_eq!(store.load_summary().sequence_number, 2);
}

#[test]
fn failing_summarizer_leaves_log_and_store_untouched() {
    let long = "z".repeat(300);
    let mut history = history_with(&["hello", long.as_str()], 1);
    let mut store = SummaryMemory::new("s1".to_string(), 50, 1, T0.to_string());
    let before_log = history.chat_history().save_session_history().unwrap();
    let before_store = store.summary_document().unwrap();
    let summarizer = FixedSummarizer::failing("model unavailable");
    assert_eq!(
        store.check_and_generate_summary(&mut history, &summarizer, T1.to_string()),
        Err(MemoryError::Summarizer("model unavailable".to_string()))
    );
    assert_eq!(history.chat_history().save_session_history().unwrap(), before_log);
    assert_eq!(store.summary_document().unwrap(), before_store);
    let records = history.chat_history().get_messages();
    assert_eq!(records.len(), 2);
    assert_eq!(records[0].content, "hello");
    assert!(!store.compaction_in_flight());
}

#[test]
fn only_one_compaction_is_in_flight_at_a_time() {
    let long = "w".repeat(300);
    let mut history = history_with(&[long.as_str()], 1);
    let mut store = SummaryMemory::new("s1".to_string(), 50, 1, T0.to_string());
    assert_eq!(
        store.finish_compaction(&mut history, Ok("early".to_string()), T1.to_string()),
        Err(MemoryError::NoCompactionInFlight)
    );
    let request = store.begin_compaction(&history).unwrap();
    assert_eq!(request.lines.len(), 1);
    assert!(store.compaction_in_flight());
    assert!(store.begin_compaction(&history).is_none());
    assert_eq!(
        store.finish_compaction(&mut history, Ok("done".to_string()), T1.to_string()),
        Ok(true)
    );
    assert!(!store.compaction_in_flight());
    assert_eq!(store.load_summary().sequence_number, 1);
}

#[test]
fn summary_document_loads_back() {
    let mut store = SummaryMemory::new("s1".to_string(), 50, 2, T0.to_string());
    store.save_summary("a \"quoted\" summary", 7, T1.to_string()).unwrap();
    let text = store.summary_document().unwrap();
    let mut other = SummaryMemory::new("other".to_string(), 10, 1, T0.to_string());
    assert_eq!(other.restore_summary(&text), Ok(()));
    let data = other.load_summary();
    assert_eq!(data.session_id, "s1");
    assert_eq!(data.sequence_number, 7);
    assert_eq!(data.summary, Some("a \"quoted\" summary".to_string()));
    assert_eq!(data.token_count, 4);
    assert_eq!(data.last_updated, T1);
    assert_eq!(other.summary_threshold(), 10);
    assert_eq!(other.restore_summary("{\"session_id\": 3}"), Err(MemoryError::UnreadableSummary));
    assert_eq!(other.restore_summary("nonsense"), Err(MemoryError::UnreadableSummary));
    assert_eq!(other.load_summary().sequence_number, 7);
}

#[test]
fn context_holds_summary_and_recent_lines() {
    let history = history_with(&["one", "two", "three"], 2);
    let mut store = SummaryMemory::new("s1".to_string(), 50, 2, T0.to_string());
    assert_eq!(
        store.load_context(&history),
        vec!["assistant: two".to_string(), "user: three".to_string()]
    );
    store.save_summary("so far", 1, T1.to_string()).unwrap();
    assert_eq!(
        store.load_context(&history),
        vec![
            "Previous conversation summary: so far".to_string(),
            "assistant: two".to_string(),
            "user: three".to_string()
        ]
    );
}

#[test]
fn prompt_variables_start_with_the_system_message() {
    let history = history_with(&["one", "two", "three"], 2);
    let mut store = SummaryMemory::new("s1".to_string(), 50, 2, T0.to_string());
    store.save_summary("so far", 1, T1.to_string()).unwrap();
    let variables = store.load_memory_variables(&history, Some("Be brief."));
    assert_eq!(variables.len(), 1);
    assert_eq!(variables[0].0, "chat_history");
    let items = match &variables[0].1 {
        JsonValue::Array(items) => items,
        _ => panic!("chat_history is an array"),
    };
    assert_eq!(items.len(), 3);
    assert_eq!(member(&items[0], "role").as_str(), Some("system"));
    assert_eq!(
        member(&items[0], "content").as_str(),
        Some("You are a helpful assistant that provides accurate and concise answers.\n\nBe brief.\n\nPrevious conversation summary: so far")
    );
    assert_eq!(member(&items[1], "role").as_str(), Some("assistant"));
    assert_eq!(member(&items[1], "content").as_str(), Some("two"));
    assert_eq!(member(&items[2], "content").as_str(), Some("three"));
}

#[test]
fn stats_report_counts_and_estimates() {
    let history = history_with(&["abcd", "efgh"], 2);
    let mut store = SummaryMemory::new("s1".to_string(), 50, 2, T0.to_string());
    store.save_summary("12345678", 1, T1.to_string()).unwrap();
    let stats = store.get_memory_stats(&history);
    assert_eq!(member(&stats, "session_id").as_str(), Some("s1"));
    assert_eq!(member(&stats, "summary_threshold").as_u64(), Some(50));
    assert_eq!(member(&stats, "recent_messages_count").as_u64(), Some(2));
    assert_eq!(member(&stats, "message_count").as_u64(), Some(2));
    assert_eq!(member(&stats, "token_count").as_u64(), Some(6));
    assert!(matches!(member(&stats, "has_summary"), JsonValue::Bool(true)));
    assert_eq!(member(&stats, "summary_token_count").as_u64(), Some(2));
    assert_eq!(member(&stats, "last_updated").as_str(), Some(T1));
    assert!(matches!(
        member(&stats, "message_count"),
        JsonValue::Number(JsonNumber::PosInt(2))
    ));
}

#[test]
fn summary_prompt_fills_the_template_with_the_transcript() {
    let history = history_with(&["hello", "hi"], 2);
    let store = SummaryMemory::new("s1".to_string(), 50, 2, T0.to_string())
        .with_summary_prompt_template("Summarize:\n{chat_history}End".to_string())
        .with_recent_messages_count(4);
    assert_eq!(store.recent_messages_count(), 4);
    let records = history.chat_history().get_messages();
    assert_eq!(store.summary_prompt(&records), "Summarize:\nUser: hello\nAssistant: hi\nEnd");
    let plain = SummaryMemory::new("s1".to_string(), 50, 2, T0.to_string());
    assert!(plain.summary_prompt(&records).ends_with(
        "Conversation:\nUser: hello\nAssistant: hi\n\n\nSummary:"
    ));
}

#[test]
fn generate_summary_stores_what_the_summarizer_answers() {
    let history = history_with(&["hello", "hi"], 2);
    let records = history.chat_history().get_messages();
    let mut store = SummaryMemory::new("s1".to_string(), 50, 2, T0.to_string());
    let summarizer = FixedSummarizer::ok("greeting");
    assert_eq!(
        store.generate_summary(&records, &summarizer, T1.to_string()),
        Ok(("greeting".to_string(), 2))
    );
    assert_eq!(store.load_summary().sequence_number, 2);
    assert_eq!(
        store.generate_summary(&records, &summarizer, T1.to_string()),
        Err(MemoryError::CheckpointRegression)
    );
    assert_eq!(
        store.generate_summary(&Vec::new(), &summarizer, T1.to_string()),
        Err(MemoryError::CheckpointRegression)
    );
    let failing = FixedSummarizer::failing("down");
    assert_eq!(
        store.generate_summary(&records, &failing, T1.to_string()),
        Err(MemoryError::Summarizer("down".to_string()))
    );
    assert_eq!(MemoryError::Summarizer("down".to_string()).message(), "summarization failed: down");
}

#[test]
fn the_summarizer_is_handed_the_summary_so_far_and_the_lines() {
    let history = history_with(&["hello", "hi"], 2);
    let records = history.chat_history().get_messages();
    let mut store = SummaryMemory::new("s1".to_string(), 50, 2, T0.to_string());
    let request = store.summary_request(&records);
    assert_eq!(request.existing_summary, None);
    assert_eq!(request.lines, vec!["user: hello".to_string(), "assistant: hi".to_string()]);
    let first = FixedSummarizer::ok("greeting");
    let only_first = vec![records[0].duplicate()];
    store.generate_summary(&only_first, &first, T1.to_string()).unwrap();
    assert_eq!(first.seen.borrow().len(), 1);
    assert_eq!(first.seen.borrow()[0], (None, vec!["user: hello".to_string()]));
    let second = FixedSummarizer::ok("more");
    store.generate_summary(&records, &second, T1.to_string()).unwrap();
    assert_eq!(second.seen.borrow().len(), 1);
    assert_eq!(
        second.seen.borrow()[0],
        (
            Some("greeting".to_string()),
            vec!["user: hello".to_string(), "assistant: hi".to_string()]
        )
    );
    assert_eq!(store.summary_request(&Vec::new()).existing_summary, Some("more".to_string()));
}
