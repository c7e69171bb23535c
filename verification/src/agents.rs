//! Agents: what they decide and the tools they hold.

pub mod agent;

pub use agent::{
    Agent, AgentAction, AgentFinish, AgentOutput, AgentRunner, SimpleAgent, SimpleAgentRunner,
};
