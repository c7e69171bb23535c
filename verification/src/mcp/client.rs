//! Tools as a tool server describes them.

use vstd::prelude::*;

verus! {

/// A tool that a server offers.
#[derive(Debug, Clone, PartialEq, Eq)]
pub struct McpTool {
    pub name: String,
    pub description: String,
}

} // verus!
