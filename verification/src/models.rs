//! What is exchanged with a chat model.

pub mod message;

pub use message::{ChatMessage, ChatMessageContent, TokenUsage};
