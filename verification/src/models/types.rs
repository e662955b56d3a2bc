//! What callers of the chat interface hand in and get back.
use crate::shared::json;
use crate::shared::json::JsonObject;
use serde_json::Value;
use vstd::prelude::*;

verus! {

/// The level of thinking that is none.
pub const THINKING_OFF: &'static str = "off";

/// The level of thinking that is high.
pub const THINKING_HIGH: &'static str = "high";

/// The highest level of thinking.
pub const THINKING_MAX: &'static str = "max";

/// What a model can do.
#[derive(Debug, Clone, Copy)]
pub struct ModelCapabilities {
    pub supports_max_effort: bool,
    pub supports_thinking: bool,
}

/// One message of a conversation.
#[derive(Debug, Clone)]
pub struct ChatMessage {
    pub role: String,
    pub content: String,
}

/// How much a model is to think.
#[derive(Debug, Clone)]
pub struct ThinkingConfig {
    pub level: Option<String>,
}

/// How hard a model is to try.
#[derive(Debug, Clone)]
pub struct EffortConfig {
    pub level: String,
}

/// What form an answer is to have.
#[derive(Debug, Clone)]
pub struct OutputConfig {
    pub format: Option<String>,
    pub schema: Option<Value>,
}

/// A request for an answer.
#[derive(Debug, Clone)]
pub struct ChatRequest {
    /// Messages that are passed on as they are, in place of `messages`.
    pub raw_messages: Option<Value>,
    pub messages: Option<Vec<ChatMessage>>,
    pub stream: Option<bool>,
    pub max_tokens: Option<i64>,
    pub system: Option<Value>,
    /// A JSON number.
    pub temperature: Option<Value>,
    pub tools: Option<Value>,
    pub thinking: Option<ThinkingConfig>,
    pub effort: Option<EffortConfig>,
    pub speed: Option<String>,
    pub output_config: Option<OutputConfig>,
    pub metadata: Option<JsonObject>,
    pub parallel_tool_calls: Option<bool>,
    /// Members that the request body gets besides its own. They replace its own.
    pub extra_body: Option<JsonObject>,
    pub end_user_id: Option<String>,
}

/// What an [`OutputConfig`] says.
pub ghost struct OutputConfigView {
    pub format: Option<Seq<char>>,
    pub schema: Option<json::Json>,
}

/// What a [`ChatMessage`] says.
pub ghost struct ChatMessageView {
    pub role: Seq<char>,
    pub content: Seq<char>,
}

/// What a [`ChatRequest`] says.
pub ghost struct ChatRequestView {
    pub raw_messages: Option<json::Json>,
    pub messages: Option<Seq<ChatMessageView>>,
    pub stream: Option<bool>,
    pub max_tokens: Option<i64>,
    pub system: Option<json::Json>,
    pub temperature: Option<json::Json>,
    pub tools: Option<json::Json>,
    /// The level of thinking, where there is one.
    pub thinking: Option<Seq<char>>,
    /// The level of effort, where there is one.
    pub effort: Option<Seq<char>>,
    pub speed: Option<Seq<char>>,
    pub output_config: Option<OutputConfigView>,
    pub metadata: Option<Map<Seq<char>, json::Json>>,
    pub parallel_tool_calls: Option<bool>,
    pub extra_body: Option<Map<Seq<char>, json::Json>>,
    pub end_user_id: Option<Seq<char>>,
}

/// What a document holds, where there is one.
pub open spec fn document(value: Option<Value>) -> Option<json::Json> {
    match value {
        Some(v) => Some(json::value_json(v)),
        None => None,
    }
}

/// What an object holds, where there is one.
pub open spec fn members(object: Option<JsonObject>) -> Option<Map<Seq<char>, json::Json>> {
    match object {
        Some(o) => Some(json::object_json(o)),
        None => None,
    }
}

impl DeepView for ChatMessage {
    type V = ChatMessageView;

    open spec fn deep_view(&self) -> ChatMessageView {
        ChatMessageView { role: self.role@, content: self.content@ }
    }
}

impl View for OutputConfig {
    type V = OutputConfigView;

    open spec fn view(&self) -> OutputConfigView {
        OutputConfigView { format: self.format.deep_view(), schema: document(self.schema) }
    }
}

impl View for ChatRequest {
    type V = ChatRequestView;

    open spec fn view(&self) -> ChatRequestView {
        ChatRequestView {
            raw_messages: document(self.raw_messages),
            messages: self.messages.deep_view(),
            stream: self.stream,
            max_tokens: self.max_tokens,
            system: document(self.system),
            temperature: document(self.temperature),
            tools: document(self.tools),
            thinking: match self.thinking {
                Some(thinking) => thinking.level.deep_view(),
                None => None,
            },
            effort: match self.effort {
                Some(effort) => Some(effort.level@),
                None => None,
            },
            speed: self.speed.deep_view(),
            output_config: match self.output_config {
                Some(config) => Some(config@),
                None => None,
            },
            metadata: members(self.metadata),
            parallel_tool_calls: self.parallel_tool_calls,
            extra_body: members(self.extra_body),
            end_user_id: self.end_user_id.deep_view(),
        }
    }
}

/// A request that asks for nothing.
pub open spec fn empty_request() -> ChatRequestView {
    ChatRequestView {
        raw_messages: None,
        messages: None,
        stream: None,
        max_tokens: None,
        system: None,
        temperature: None,
        tools: None,
        thinking: None,
        effort: None,
        speed: None,
        output_config: None,
        metadata: None,
        parallel_tool_calls: None,
        extra_body: None,
        end_user_id: None,
    }
}

impl Default for ModelCapabilities {
    fn default() -> (caps: ModelCapabilities)
        ensures
            !caps.supports_max_effort,
            !caps.supports_thinking,
    {
        ModelCapabilities { supports_max_effort: false, supports_thinking: false }
    }
}

impl Default for ChatRequest {
    fn default() -> (request: ChatRequest)
        ensures
            request@ == empty_request(),
    {
        ChatRequest {
            raw_messages: None,
            messages: None,
            stream: None,
            max_tokens: None,
            system: None,
            temperature: None,
            tools: None,
            thinking: None,
            effort: None,
            speed: None,
            output_config: None,
            metadata: None,
            parallel_tool_calls: None,
            extra_body: None,
            end_user_id: None,
        }
    }
}

/// The tokens that an answer took.
#[derive(Debug, Clone, Copy)]
pub struct ChatUsage {
    pub input_tokens: i64,
    pub output_tokens: i64,
}

/// A block of an answer.
#[derive(Debug, Clone)]
pub struct ChatContentBlock {
    /// "thinking", "text" or "tool_use".
    pub kind: String,
    pub text: Option<String>,
    pub thinking: Option<String>,
    pub id: Option<String>,
    pub name: Option<String>,
    pub input: Option<Value>,
}

/// An answer. What remains is -1 where it is not known.
#[derive(Debug, Clone)]
pub struct ChatResponse {
    pub id: String,
    /// "message"
    pub kind: String,
    pub model: String,
    pub role: String,
    pub content: Vec<ChatContentBlock>,
    /// Empty where no reason was given.
    pub stop_reason: String,
    pub usage: ChatUsage,
    pub token_remaining: i64,
    pub call_remaining: i64,
    pub model_token_remaining: i64,
    pub model_token_remaining_etu: i64,
}

/// An event of a stream.
#[derive(Debug, Clone)]
pub struct StreamEvent {
    pub event: String,
    pub data: String,
}

impl Default for StreamEvent {
    fn default() -> (event: StreamEvent)
        ensures
            event.event@ == Seq::<char>::empty(),
            event.data@ == Seq::<char>::empty(),
    {
        StreamEvent { event: String::new(), data: String::new() }
    }
}

} // verus!
