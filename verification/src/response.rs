//! Completion responses handed back by adapters.

use vstd::prelude::*;

use crate::conversation::{ConversationRole, ToolCall};
use crate::cost::TokenUsage;

verus! {

/// One message of a completion choice.
#[derive(Debug)]
pub struct Message {
    pub role: ConversationRole,
    pub content: Option<String>,
    pub tool_calls: Option<Vec<ToolCall>>,
}

/// One completion choice.
#[derive(Debug)]
pub struct Choice {
    pub index: u32,
    pub message: Message,
    pub finish_reason: Option<String>,
}

/// A whole chat completion. `cost` is the exact total price of the call
/// in femtodollars (see the cost module).
#[derive(Debug)]
pub struct AdapterChatCompletion {
    pub id: String,
    pub object: String,
    pub created: u64,
    pub model: String,
    pub choices: Vec<Choice>,
    pub usage: Option<TokenUsage>,
    pub cost: u128,
}

/// The delta of one streamed chunk.
#[derive(Debug)]
pub struct Delta {
    pub role: Option<ConversationRole>,
    pub content: Option<String>,
    pub tool_calls: Option<Vec<ToolCall>>,
}

/// One choice of a streamed chunk.
#[derive(Debug)]
pub struct ChunkChoice {
    pub index: u32,
    pub delta: Delta,
    pub finish_reason: Option<String>,
}

/// One streamed chunk of a chat completion.
#[derive(Debug)]
pub struct AdapterChatCompletionChunk {
    pub id: String,
    pub object: String,
    pub created: u64,
    pub model: String,
    pub choices: Vec<ChunkChoice>,
}

/// The requested shape of a completion's output.
#[derive(Debug, Clone)]
pub struct ResponseFormat {
    pub format_type: String,
}

impl ResponseFormat {
    /// The JSON-object response format.
    pub fn json() -> (r: ResponseFormat)
        ensures
            r.format_type@ == "json_object"@,
    {
        ResponseFormat { format_type: "json_object".to_owned() }
    }

    /// The plain-text response format.
    pub fn text() -> (r: ResponseFormat)
        ensures
            r.format_type@ == "text"@,
    {
        ResponseFormat { format_type: "text".to_owned() }
    }
}

} // verus!
