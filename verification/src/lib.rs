//! Conversation memory for an assistant: an append-only record log per
//! session, a rolling summary with a checkpoint, and the compaction rule
//! that folds old records into the summary. Around it stand the tools and
//! agents that use the memory.

pub mod agents;
pub mod callbacks;
pub mod error;
pub mod json;
pub mod mcp;
pub mod memory;
pub mod models;
pub mod prompt;
pub mod text;
pub mod tools;

pub use agents::{
    Agent, AgentAction, AgentFinish, AgentOutput, AgentRunner, SimpleAgent, SimpleAgentRunner,
};
pub use callbacks::CallbackHandler;
pub use error::MemoryError;
pub use mcp::McpTool;
pub use memory::{
    BaseMemory, ChatMessage, ChatMessageRecord, CompositeMemory, CompositeMemoryConfig,
    MessageHistoryMemory, SimpleMemory, SummaryMemory,
};
pub use models::{ChatMessage as ModelChatMessage, ChatMessageContent, TokenUsage};
pub use tools::{
    find_matching_tool_index, parse_model_output, ExampleTool, ExampleToolkit, Tool, Toolkit,
};
