//! The memory subsystem: the record log, the summary store, the
//! compaction rule and the memory that puts them together.

pub mod backend;
pub mod base;
pub mod composite_memory;
pub mod document;
pub mod legacy;
pub mod message_history;
pub mod persistence;
pub mod summary;
pub mod utils;

pub use backend::BaseMemory;
pub use base::{MemoryVariables, SimpleMemory};
pub use composite_memory::{Compaction, CompositeMemory, CompositeMemoryConfig};
pub use message_history::{
    ChatMessage, ChatMessageRecord, ChatSessionHistory, FileChatMessageHistory, LoadOutcome,
    MessageHistoryMemory,
};
pub use summary::{Summarizer, SummaryData, SummaryMemory, SummaryRequest};
pub use utils::{
    deserialize_from_str, estimate_json_token_count, estimate_text_tokens,
    estimate_token_count, generate_session_id, get_data_dir_from_env,
    get_recent_messages_count_from_env, get_session_file_path, get_summary_threshold_from_env,
    parse_timestamp, serialize_to_string,
};
