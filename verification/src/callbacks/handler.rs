//! The interface of a callback handler.

use vstd::prelude::*;
use crate::agents::agent::{AgentAction, AgentFinish};

verus! {

/// A handler that is told of the steps of a run. Each hook does nothing
/// unless a handler says otherwise.
pub trait CallbackHandler: Send + Sync {
    /// A model is about to be called with `_prompts`.
    fn on_llm_start(&self, _model_name: &str, _prompts: &[String]) {
    }

    /// A model has produced one more token.
    fn on_llm_new_token(&self, _token: &str) {
    }

    /// A call to a model has ended.
    fn on_llm_end(&self, _model_name: &str) {
    }

    /// A call to a model has failed.
    fn on_llm_error(&self, _model_name: &str, _error: &str) {
    }

    /// A tool is about to run on `_input`.
    fn on_tool_start(&self, _tool_name: &str, _input: &str) {
    }

    /// A tool has answered `_output`.
    fn on_tool_end(&self, _tool_name: &str, _output: &str) {
    }

    /// A tool has failed.
    fn on_tool_error(&self, _tool_name: &str, _error: &str) {
    }

    /// A chain is about to run.
    fn on_chain_start(&self, _chain_name: &str) {
    }

    /// A chain has ended.
    fn on_chain_end(&self, _chain_name: &str) {
    }

    /// A chain has failed.
    fn on_chain_error(&self, _chain_name: &str, _error: &str) {
    }

    /// An agent has decided to call a tool.
    fn on_agent_action(&self, _action: &AgentAction) {
    }

    /// An agent has finished.
    fn on_agent_finish(&self, _finish: &AgentFinish) {
    }
}

} // verus!
