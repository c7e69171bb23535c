use rust_agent::memory::utils::{
    estimate_text_tokens, estimate_token_count, generate_session_id,
    get_data_dir_from_env, get_recent_messages_count_from_env, get_session_file_path,
    get_summary_threshold_from_env, parse_timestamp, parse_usize, session_file_name,
};
use std::path::{Path, PathBuf};

#[test]
fn test_estimate_token_count() {
    assert_eq!(estimate_token_count(""), 0);
    assert_eq!(estimate_token_count("hello world"), 2);
    assert_eq!(estimate_token_count("a".repeat(20).as_str()), 5);
}

#[test]
fn test_get_session_file_path() {
    let data_dir = Path::new("/tmp");
    let session_id = "test_session";
    let suffix = "json";

    let path = get_session_file_path(data_dir, session_id, suffix);
    assert_eq!(path, PathBuf::from("/tmp/test_session_json"));
}

#[test]
fn test_generate_session_id() {
    let id1 = generate_session_id();
    let id2 = generate_session_id();

    assert_ne!(id1, id2);
    assert_eq!(id1.len(), 36);
    assert_eq!(id2.len(), 36);
}

#[test]
fn estimate_text_tokens_counts_wide_glyphs_one_each() {
    assert_eq!(estimate_text_tokens(""), 0);
    assert_eq!(estimate_text_tokens("abcdefgh"), 2);
    assert_eq!(estimate_text_tokens("abc"), 0);
    assert_eq!(estimate_text_tokens("你好"), 2);
    assert_eq!(estimate_text_tokens("你好abcd"), 3);
}

#[test]
fn test_current_timestamp() {
    let timestamp = chrono::Utc::now().to_rfc3339();
    assert!(parse_timestamp(&timestamp).is_ok());
}

#[test]
fn estimate_never_shrinks_when_text_is_added() {
    let parts = ["", "a", "abc", "你", "ab你cd", "        "];
    for a in parts {
        for b in parts {
            let joined = format!("{}{}", a, b);
            assert!(estimate_text_tokens(&joined) >= estimate_text_tokens(a));
            assert!(estimate_text_tokens(&joined) >= estimate_text_tokens(b));
        }
    }
}

#[test]
fn decimal_texts_are_read_as_numbers() {
    assert_eq!(parse_usize("0"), Some(0));
    assert_eq!(parse_usize("+15"), Some(15));
    assert_eq!(parse_usize("007"), Some(7));
    assert_eq!(parse_usize(""), None);
    assert_eq!(parse_usize("+"), None);
    assert_eq!(parse_usize("-1"), None);
    assert_eq!(parse_usize("1 "), None);
    assert_eq!(parse_usize("１２"), None);
    assert_eq!(parse_usize(&usize::MAX.to_string()), Some(usize::MAX));
    assert_eq!(parse_usize(&format!("{}0", usize::MAX)), None);
    for text in ["12", "+3", "", "x", "4294967296", "18446744073709551616", "++1"] {
        assert_eq!(parse_usize(text), text.parse::<usize>().ok(), "text {:?}", text);
    }
}

#[test]
fn environment_values_fall_back_to_the_defaults() {
    assert_eq!(get_summary_threshold_from_env(None), 3500);
    assert_eq!(get_summary_threshold_from_env(Some("200")), 200);
    assert_eq!(get_summary_threshold_from_env(Some("many")), 3500);
    assert_eq!(get_recent_messages_count_from_env(None), 10);
    assert_eq!(get_recent_messages_count_from_env(Some("4")), 4);
    assert_eq!(get_recent_messages_count_from_env(Some("4.5")), 10);
    assert_eq!(get_data_dir_from_env(None), PathBuf::from("./data/memory"));
    assert_eq!(get_data_dir_from_env(Some("/srv/mem")), PathBuf::from("/srv/mem"));
    assert_eq!(session_file_name("abc", "history.jsonl"), "abc_history.jsonl");
}
