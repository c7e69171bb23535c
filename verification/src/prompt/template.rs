//! The interface of a prompt template.

use vstd::prelude::*;
use crate::error::MemoryError;

verus! {

/// A text with named gaps.
pub trait PromptTemplate: Send + Sync {
    /// The names of the gaps.
    fn input_variables(&self) -> Vec<String>;

    /// The text with the gaps filled from `inputs`.
    fn format(&self, inputs: &Vec<(String, String)>) -> Result<String, MemoryError>;
}

} // verus!
