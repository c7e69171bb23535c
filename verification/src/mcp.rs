//! The data of the tool-calling protocol.

pub mod client;
pub mod message;

pub use client::McpTool;
pub use message::{JSONRPCError, JSONRPCRequest, JSONRPCResponse};
