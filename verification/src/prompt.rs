//! Prompt templates.

pub mod template;

pub use template::PromptTemplate;
