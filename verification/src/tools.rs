//! Tools an agent can call.

pub mod tool;
pub mod utils;

pub use tool::{ExampleTool, ExampleToolkit, Tool, Toolkit};
pub use utils::{find_matching_tool_index, parse_model_output};
