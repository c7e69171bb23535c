//! The ways in which an operation of the library can fail.

use vstd::prelude::*;
use vstd::string::*;

verus! {

/// Why an operation failed.
#[derive(Debug, PartialEq, Eq, Clone)]
pub enum MemoryError {
    /// A text that should be JSON is not.
    InvalidJson,
    /// A document could not be written as text.
    Serialize,
    /// A stored file is neither a session document nor a list of legacy
    /// records.
    UnreadableHistory,
    /// A stored summary document lacks a field or holds one of the wrong
    /// kind.
    UnreadableSummary,
    /// A checkpoint that is not above the stored one.
    CheckpointRegression,
    /// The session has used up its sequence numbers.
    SequenceExhausted,
    /// The summarizer failed; the text is its reason.
    Summarizer(String),
    /// A summary arrived although none had been asked for.
    NoCompactionInFlight,
    /// What a model answered is neither a tool call nor a final answer.
    UnreadableModelOutput,
    /// No tool of the name given exists.
    UnknownTool(String),
    /// A tool failed; the text is its reason.
    Tool(String),
    /// A text that should be a time is not.
    InvalidTimestamp,
    /// A tool call without the name of a tool.
    MissingToolName,
    /// A text that holds no tool call.
    UnreadableToolCall,
}

impl MemoryError {
    /// The sentence for this error.
    pub open spec fn spec_message(&self) -> Seq<char> {
        match self {
            MemoryError::InvalidJson => "the text is not valid JSON"@,
            MemoryError::Serialize => "the document could not be serialized"@,
            MemoryError::UnreadableHistory => "Failed to parse file as either session history JSON or old JSONL format"@,
            MemoryError::UnreadableSummary => "the summary document is missing a field or holds one of the wrong kind"@,
            MemoryError::CheckpointRegression => "the checkpoint must be strictly greater than the stored one"@,
            MemoryError::SequenceExhausted => "the session has no sequence numbers left"@,
            MemoryError::Summarizer(reason) => "summarization failed: "@ + reason@,
            MemoryError::NoCompactionInFlight => "no compaction is in flight"@,
            MemoryError::UnreadableModelOutput => "Failed to parse model output"@,
            MemoryError::UnknownTool(name) => "The tool "@ + name@ + " not found"@,
            MemoryError::Tool(reason) => reason@,
            MemoryError::InvalidTimestamp => "the text is not a valid timestamp"@,
            MemoryError::MissingToolName => "Missing tool name"@,
            MemoryError::UnreadableToolCall => "Failed to parse tool call from content"@,
        }
    }

    /// A sentence for this error.
    pub fn message(&self) -> (text: String)
        ensures
            text@ == self.spec_message(),
    {
        match self {
            MemoryError::InvalidJson => String::from_str("the text is not valid JSON"),
            MemoryError::Serialize => String::from_str("the document could not be serialized"),
            MemoryError::UnreadableHistory => String::from_str(
                "Failed to parse file as either session history JSON or old JSONL format",
            ),
            MemoryError::UnreadableSummary => String::from_str(
                "the summary document is missing a field or holds one of the wrong kind",
            ),
            MemoryError::CheckpointRegression => String::from_str(
                "the checkpoint must be strictly greater than the stored one",
            ),
            MemoryError::SequenceExhausted => String::from_str(
                "the session has no sequence numbers left",
            ),
            MemoryError::Summarizer(reason) => {
                let mut text = String::from_str("summarization failed: ");
                text.append(reason.as_str());
                text
            },
            MemoryError::NoCompactionInFlight => String::from_str("no compaction is in flight"),
            MemoryError::UnreadableModelOutput => String::from_str("Failed to parse model output"),
            MemoryError::UnknownTool(name) => {
                let mut text = String::from_str("The tool ");
                text.append(name.as_str());
                text.append(" not found");
                text
            },
            MemoryError::Tool(reason) => reason.clone(),
            MemoryError::InvalidTimestamp => String::from_str("the text is not a valid timestamp"),
            MemoryError::MissingToolName => String::from_str("Missing tool name"),
            MemoryError::UnreadableToolCall => String::from_str(
                "Failed to parse tool call from content",
            ),
        }
    }
}

} // verus!
