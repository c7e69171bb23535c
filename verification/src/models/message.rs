//! Messages for a chat model and the account of what a call used.

use vstd::prelude::*;
use vstd::string::*;
use crate::json::{JsonModel, JsonValue};
use crate::memory::message_history::{Role, role_named};

verus! {

/// What a message holds.
#[derive(Debug)]
pub struct ChatMessageContent {
    pub content: String,
    pub name: Option<String>,
    /// Fields that belong to a protocol, such as the identifier of a tool
    /// call.
    pub additional_kwargs: Vec<(String, JsonValue)>,
}

/// A message, by who speaks.
#[derive(Debug)]
pub enum ChatMessage {
    System(ChatMessageContent),
    Human(ChatMessageContent),
    AIMessage(ChatMessageContent),
    ToolMessage(ChatMessageContent),
}

/// The text of the member `key`, or `default` where it is no string.
pub open spec fn text_or(doc: JsonModel, key: Seq<char>, default: Seq<char>) -> Seq<char> {
    match doc.text_at(key) {
        Some(t) => t,
        None => default,
    }
}

impl ChatMessage {
    /// The message that a JSON object stands for: its `content`, or none
    /// where that is no string, said by its `role`. A user's message is a
    /// human's; a message without a role, or with one that is not known,
    /// is the assistant's.
    pub fn from_dict(message_dict: &JsonValue) -> (message: ChatMessage)
        ensures
            message.spec_content().content@ == text_or(message_dict@, "content"@, Seq::empty()),
            message.spec_content().name is None,
            message.spec_content().additional_kwargs@.len() == 0,
            match role_named(text_or(message_dict@, "role"@, "assistant"@)) {
                Some(Role::System) => message is System,
                Some(Role::User) => message is Human,
                Some(Role::Tool) => message is ToolMessage,
                _ => message is AIMessage,
            },
    {
        let role = match message_dict.str_at("role") {
            Some(r) => Role::parse(r),
            None => Role::parse("assistant"),
        };
        let content = match message_dict.str_at("content") {
            Some(c) => String::from_str(c),
            None => String::new(),
        };
        let chat_content = ChatMessageContent {
            content,
            name: None,
            additional_kwargs: Vec::new(),
        };
        match role {
            Some(Role::System) => ChatMessage::System(chat_content),
            Some(Role::User) => ChatMessage::Human(chat_content),
            Some(Role::Tool) => ChatMessage::ToolMessage(chat_content),
            _ => ChatMessage::AIMessage(chat_content),
        }
    }

    /// What the message holds, whoever speaks.
    pub open spec fn spec_content(self) -> ChatMessageContent {
        match self {
            ChatMessage::System(c) => c,
            ChatMessage::Human(c) => c,
            ChatMessage::AIMessage(c) => c,
            ChatMessage::ToolMessage(c) => c,
        }
    }

    /// What the message holds, whoever speaks.
    pub fn content(&self) -> (inner: &ChatMessageContent)
        ensures
            *inner == self.spec_content(),
    {
        match self {
            ChatMessage::System(c) => c,
            ChatMessage::Human(c) => c,
            ChatMessage::AIMessage(c) => c,
            ChatMessage::ToolMessage(c) => c,
        }
    }
}

/// How many tokens a call to a model used.
#[derive(Debug, Clone, Copy, PartialEq, Eq, Structural)]
pub struct TokenUsage {
    pub prompt_tokens: usize,
    pub completion_tokens: usize,
    pub total_tokens: usize,
}

} // verus!
