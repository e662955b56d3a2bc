//! The wire format of answers in the Anthropic dialect.
use serde_json::Value;
use vstd::prelude::*;

verus! {

/// The tokens that an answer took.
#[derive(Debug, Clone, Copy)]
pub struct AnthropicUsage {
    pub input_tokens: i64,
    pub output_tokens: i64,
}

/// A block of an answer.
#[derive(Debug, Clone)]
pub struct AnthropicContentBlock {
    /// The member `type`: "thinking", "text" or "tool_use".
    pub kind: String,
    pub text: Option<String>,
    pub thinking: Option<String>,
    pub id: Option<String>,
    pub name: Option<String>,
    pub input: Option<Value>,
}

/// An answer.
#[derive(Debug, Clone)]
pub struct AnthropicResponse {
    pub id: String,
    /// The member `type`: "message".
    pub kind: String,
    pub role: String,
    pub content: Vec<AnthropicContentBlock>,
    pub model: String,
    /// Empty where no reason was given.
    pub stop_reason: String,
    pub stop_sequence: Option<String>,
    pub usage: AnthropicUsage,
}

} // verus!
