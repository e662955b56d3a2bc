//! The wire format of gateways that speak the OpenAI dialect.
//!
//! A member that a gateway may leave out, or write as `null`, reads as nothing. Where that cannot be
//! told from a value, the field is an `Option`.
use crate::shared::decode;
use crate::shared::decode::check_record;
use crate::shared::decode::find_member;
use crate::shared::decode::read_optional;
use crate::shared::decode::read_required;
use crate::shared::decode::FromJson;
use crate::shared::json;
use crate::shared::json::open_value;
use crate::shared::json::print_value;
use crate::shared::json::JsonRef;
use serde_json::Value;
use vstd::prelude::*;

verus! {

/// The tokens that a response took.
#[derive(Debug, Clone)]
pub struct OpenAIUsage {
    pub prompt_tokens: i64,
    pub completion_tokens: i64,
    pub total_tokens: i64,
}

/// What [`OpenAIUsage`] holds.
#[verifier::ext_equal]
pub ghost struct OpenAIUsageView {
    pub prompt_tokens: i64,
    pub completion_tokens: i64,
    pub total_tokens: i64,
}

impl DeepView for OpenAIUsage {
    type V = OpenAIUsageView;

    open spec fn deep_view(&self) -> OpenAIUsageView {
        OpenAIUsageView {
            prompt_tokens: self.prompt_tokens.deep_view(),
            completion_tokens: self.completion_tokens.deep_view(),
            total_tokens: self.total_tokens.deep_view(),
        }
    }
}

/// The function that a tool call names. In a stream only the first piece of a call has a name.
#[derive(Debug, Clone)]
pub struct OpenAIFunctionCall {
    /// `None` where there is no name, which is not the empty name.
    pub name: Option<String>,
    pub arguments: String,
}

/// What [`OpenAIFunctionCall`] holds.
#[verifier::ext_equal]
pub ghost struct OpenAIFunctionCallView {
    pub name: Option<Seq<char>>,
    pub arguments: Seq<char>,
}

impl DeepView for OpenAIFunctionCall {
    type V = OpenAIFunctionCallView;

    open spec fn deep_view(&self) -> OpenAIFunctionCallView {
        OpenAIFunctionCallView {
            name: self.name.deep_view(),
            arguments: self.arguments.deep_view(),
        }
    }
}

/// A tool call of a response.
#[derive(Debug, Clone, Default)]
pub struct OpenAIToolCall {
    pub id: String,
    /// The member `type`: "function".
    pub kind: String,
    pub function: OpenAIFunctionCall,
}

/// What [`OpenAIToolCall`] holds.
#[verifier::ext_equal]
pub ghost struct OpenAIToolCallView {
    pub id: Seq<char>,
    pub kind: Seq<char>,
    pub function: OpenAIFunctionCallView,
}

impl DeepView for OpenAIToolCall {
    type V = OpenAIToolCallView;

    open spec fn deep_view(&self) -> OpenAIToolCallView {
        OpenAIToolCallView {
            id: self.id.deep_view(),
            kind: self.kind.deep_view(),
            function: self.function.deep_view(),
        }
    }
}

/// The message of a response.
#[derive(Debug, Clone, Default)]
pub struct OpenAIChatMessage {
    pub role: String,
    /// Empty where the response has only tool calls.
    pub content: String,
    pub tool_calls: Option<Vec<OpenAIToolCall>>,
    pub reasoning_content: Option<String>,
}

/// What [`OpenAIChatMessage`] holds.
#[verifier::ext_equal]
pub ghost struct OpenAIChatMessageView {
    pub role: Seq<char>,
    pub content: Seq<char>,
    pub tool_calls: Option<Seq<OpenAIToolCallView>>,
    pub reasoning_content: Option<Seq<char>>,
}

impl DeepView for OpenAIChatMessage {
    type V = OpenAIChatMessageView;

    open spec fn deep_view(&self) -> OpenAIChatMessageView {
        OpenAIChatMessageView {
            role: self.role.deep_view(),
            content: self.content.deep_view(),
            tool_calls: self.tool_calls.deep_view(),
            reasoning_content: self.reasoning_content.deep_view(),
        }
    }
}

/// One of the answers of a response.
#[derive(Debug, Clone, Default)]
pub struct OpenAIChatChoice {
    pub index: i64,
    pub message: OpenAIChatMessage,
    /// "stop", "tool_calls", "length" and others; empty where none was given.
    pub finish_reason: String,
}

/// What [`OpenAIChatChoice`] holds.
#[verifier::ext_equal]
pub ghost struct OpenAIChatChoiceView {
    pub index: i64,
    pub message: OpenAIChatMessageView,
    pub finish_reason: Seq<char>,
}

impl DeepView for OpenAIChatChoice {
    type V = OpenAIChatChoiceView;

    open spec fn deep_view(&self) -> OpenAIChatChoiceView {
        OpenAIChatChoiceView {
            index: self.index.deep_view(),
            message: self.message.deep_view(),
            finish_reason: self.finish_reason.deep_view(),
        }
    }
}

/// A whole response.
#[derive(Debug, Clone, Default)]
pub struct OpenAIChatResponse {
    pub id: String,
    /// "chat.completion"
    pub object: String,
    pub model: String,
    /// Empty where there are none, or `null`.
    pub choices: Vec<OpenAIChatChoice>,
    /// All counts are 0 where there is no usage, or `null`.
    pub usage: OpenAIUsage,
}

/// What [`OpenAIChatResponse`] holds.
#[verifier::ext_equal]
pub ghost struct OpenAIChatResponseView {
    pub id: Seq<char>,
    pub object: Seq<char>,
    pub model: Seq<char>,
    pub choices: Seq<OpenAIChatChoiceView>,
    pub usage: OpenAIUsageView,
}

impl DeepView for OpenAIChatResponse {
    type V = OpenAIChatResponseView;

    open spec fn deep_view(&self) -> OpenAIChatResponseView {
        OpenAIChatResponseView {
            id: self.id.deep_view(),
            object: self.object.deep_view(),
            model: self.model.deep_view(),
            choices: self.choices.deep_view(),
            usage: self.usage.deep_view(),
        }
    }
}

/// What the prompt tokens are made of.
#[derive(Debug, Clone, Default)]
pub struct OpenAIStreamUsagePromptDetails {
    pub cached_tokens: Option<i64>,
}

/// What [`OpenAIStreamUsagePromptDetails`] holds.
#[verifier::ext_equal]
pub ghost struct OpenAIStreamUsagePromptDetailsView {
    pub cached_tokens: Option<i64>,
}

impl DeepView for OpenAIStreamUsagePromptDetails {
    type V = OpenAIStreamUsagePromptDetailsView;

    open spec fn deep_view(&self) -> OpenAIStreamUsagePromptDetailsView {
        OpenAIStreamUsagePromptDetailsView {
            cached_tokens: self.cached_tokens.deep_view(),
        }
    }
}

/// What the completion tokens are made of.
#[derive(Debug, Clone, Default)]
pub struct OpenAIStreamUsageCompletionDetails {
    pub reasoning_tokens: Option<i64>,
}

/// What [`OpenAIStreamUsageCompletionDetails`] holds.
#[verifier::ext_equal]
pub ghost struct OpenAIStreamUsageCompletionDetailsView {
    pub reasoning_tokens: Option<i64>,
}

impl DeepView for OpenAIStreamUsageCompletionDetails {
    type V = OpenAIStreamUsageCompletionDetailsView;

    open spec fn deep_view(&self) -> OpenAIStreamUsageCompletionDetailsView {
        OpenAIStreamUsageCompletionDetailsView {
            reasoning_tokens: self.reasoning_tokens.deep_view(),
        }
    }
}

/// The usage on a frame of a stream. Every count may be missing.
#[derive(Debug, Clone, Default)]
pub struct OpenAIStreamUsage {
    pub prompt_tokens: Option<i64>,
    pub completion_tokens: Option<i64>,
    pub total_tokens: Option<i64>,
    pub prompt_tokens_details: Option<OpenAIStreamUsagePromptDetails>,
    pub completion_tokens_details: Option<OpenAIStreamUsageCompletionDetails>,
}

/// What [`OpenAIStreamUsage`] holds.
#[verifier::ext_equal]
pub ghost struct OpenAIStreamUsageView {
    pub prompt_tokens: Option<i64>,
    pub completion_tokens: Option<i64>,
    pub total_tokens: Option<i64>,
    pub prompt_tokens_details: Option<OpenAIStreamUsagePromptDetailsView>,
    pub completion_tokens_details: Option<OpenAIStreamUsageCompletionDetailsView>,
}

impl DeepView for OpenAIStreamUsage {
    type V = OpenAIStreamUsageView;

    open spec fn deep_view(&self) -> OpenAIStreamUsageView {
        OpenAIStreamUsageView {
            prompt_tokens: self.prompt_tokens.deep_view(),
            completion_tokens: self.completion_tokens.deep_view(),
            total_tokens: self.total_tokens.deep_view(),
            prompt_tokens_details: self.prompt_tokens_details.deep_view(),
            completion_tokens_details: self.completion_tokens_details.deep_view(),
        }
    }
}

/// A piece of a tool call.
#[derive(Debug, Clone, Default)]
pub struct OpenAIStreamToolCall {
    /// `None` where there is none, which is not the index 0.
    pub index: Option<i64>,
    pub id: Option<String>,
    /// The member `type`.
    pub kind: Option<String>,
    /// Without name and arguments where the piece has no function.
    pub function: OpenAIFunctionCall,
}

/// What [`OpenAIStreamToolCall`] holds.
#[verifier::ext_equal]
pub ghost struct OpenAIStreamToolCallView {
    pub index: Option<i64>,
    pub id: Option<Seq<char>>,
    pub kind: Option<Seq<char>>,
    pub function: OpenAIFunctionCallView,
}

impl DeepView for OpenAIStreamToolCall {
    type V = OpenAIStreamToolCallView;

    open spec fn deep_view(&self) -> OpenAIStreamToolCallView {
        OpenAIStreamToolCallView {
            index: self.index.deep_view(),
            id: self.id.deep_view(),
            kind: self.kind.deep_view(),
            function: self.function.deep_view(),
        }
    }
}

/// What a frame adds to the answer.
#[derive(Debug, Clone)]
pub struct OpenAIStreamDelta {
    pub role: Option<String>,
    pub content: Option<String>,
    pub reasoning_content: Option<String>,
    pub tool_calls: Option<Vec<OpenAIStreamToolCall>>,
}

/// What [`OpenAIStreamDelta`] holds.
#[verifier::ext_equal]
pub ghost struct OpenAIStreamDeltaView {
    pub role: Option<Seq<char>>,
    pub content: Option<Seq<char>>,
    pub reasoning_content: Option<Seq<char>>,
    pub tool_calls: Option<Seq<OpenAIStreamToolCallView>>,
}

impl DeepView for OpenAIStreamDelta {
    type V = OpenAIStreamDeltaView;

    open spec fn deep_view(&self) -> OpenAIStreamDeltaView {
        OpenAIStreamDeltaView {
            role: self.role.deep_view(),
            content: self.content.deep_view(),
            reasoning_content: self.reasoning_content.deep_view(),
            tool_calls: self.tool_calls.deep_view(),
        }
    }
}

/// One of the answers that a frame goes on with.
#[derive(Debug, Clone, Default)]
pub struct OpenAIStreamChoice {
    pub index: i64,
    /// Empty where the frame has none.
    pub delta: OpenAIStreamDelta,
    pub finish_reason: Option<String>,
}

/// What [`OpenAIStreamChoice`] holds.
#[verifier::ext_equal]
pub ghost struct OpenAIStreamChoiceView {
    pub index: i64,
    pub delta: OpenAIStreamDeltaView,
    pub finish_reason: Option<Seq<char>>,
}

impl DeepView for OpenAIStreamChoice {
    type V = OpenAIStreamChoiceView;

    open spec fn deep_view(&self) -> OpenAIStreamChoiceView {
        OpenAIStreamChoiceView {
            index: self.index.deep_view(),
            delta: self.delta.deep_view(),
            finish_reason: self.finish_reason.deep_view(),
        }
    }
}

/// A frame of a stream.
#[derive(Debug, Clone, Default)]
pub struct OpenAIStreamChunk {
    pub id: String,
    /// "chat.completion.chunk"
    pub object: String,
    /// Empty where the member is no array.
    pub choices: Vec<OpenAIStreamChoice>,
    pub usage: Option<OpenAIStreamUsage>,
}

/// What [`OpenAIStreamChunk`] holds.
#[verifier::ext_equal]
pub ghost struct OpenAIStreamChunkView {
    pub id: Seq<char>,
    pub object: Seq<char>,
    pub choices: Seq<OpenAIStreamChoiceView>,
    pub usage: Option<OpenAIStreamUsageView>,
}

impl DeepView for OpenAIStreamChunk {
    type V = OpenAIStreamChunkView;

    open spec fn deep_view(&self) -> OpenAIStreamChunkView {
        OpenAIStreamChunkView {
            id: self.id.deep_view(),
            object: self.object.deep_view(),
            choices: self.choices.deep_view(),
            usage: self.usage.deep_view(),
        }
    }
}

/// No tokens at all.
pub open spec fn no_usage() -> OpenAIUsageView {
    OpenAIUsageView { prompt_tokens: 0, completion_tokens: 0, total_tokens: 0 }
}

/// A function without name and arguments.
pub open spec fn no_function() -> OpenAIFunctionCallView {
    OpenAIFunctionCallView { name: None, arguments: Seq::empty() }
}

/// A delta that adds nothing.
pub open spec fn no_delta() -> OpenAIStreamDeltaView {
    OpenAIStreamDeltaView { role: None, content: None, reasoning_content: None, tool_calls: None }
}

impl Default for OpenAIUsage {
    fn default() -> (usage: OpenAIUsage)
        ensures
            usage.deep_view() == no_usage(),
    {
        OpenAIUsage { prompt_tokens: 0, completion_tokens: 0, total_tokens: 0 }
    }
}

impl Default for OpenAIFunctionCall {
    fn default() -> (function: OpenAIFunctionCall)
        ensures
            function.deep_view() == no_function(),
    {
        OpenAIFunctionCall { name: None, arguments: String::new() }
    }
}

impl Default for OpenAIStreamDelta {
    fn default() -> (delta: OpenAIStreamDelta)
        ensures
            delta.deep_view() == no_delta(),
    {
        OpenAIStreamDelta { role: None, content: None, reasoning_content: None, tool_calls: None }
    }
}

/// `null` stands for the empty text.
pub open spec fn string_or_empty(doc: json::Json) -> Option<Seq<char>> {
    match doc {
        json::Json::Null => Some(Seq::empty()),
        _ => String::from_json(doc),
    }
}

/// Arguments are a text that holds JSON. Where a gateway writes the JSON itself, its text counts;
/// `null` stands for the empty text.
pub open spec fn arguments_text(doc: json::Json) -> Seq<char> {
    match doc {
        json::Json::Null => Seq::empty(),
        json::Json::Str(text) => text,
        _ => json::json_print(doc),
    }
}

/// `null` stands for no tokens.
pub open spec fn usage_or_default(doc: json::Json) -> Option<OpenAIUsageView> {
    match doc {
        json::Json::Null => Some(no_usage()),
        _ => OpenAIUsage::from_json(doc),
    }
}

/// `null` stands for no choices. Anything else that is no array is an error: a response whose
/// choices cannot be read is not one without an answer.
pub open spec fn choices_or_empty(doc: json::Json) -> Option<Seq<OpenAIChatChoiceView>> {
    match doc {
        json::Json::Null => Some(Seq::empty()),
        _ => Vec::<OpenAIChatChoice>::from_json(doc),
    }
}

/// Whatever is no array stands for no choices: a strange frame adds nothing and does not end the
/// stream. A bad item of an array is an error.
pub open spec fn choices_lenient(doc: json::Json) -> Option<Seq<OpenAIStreamChoiceView>> {
    match doc {
        json::Json::Array(_) => Vec::<OpenAIStreamChoice>::from_json(doc),
        _ => Some(Seq::empty()),
    }
}

/// Reads a text that may be `null`.
pub fn de_string_or_empty(value: &Value) -> (result: Result<String, String>)
    ensures
        decode::decoded(result, string_or_empty(json::value_json(*value))),
{
    match open_value(value) {
        JsonRef::Null => Ok(String::new()),
        _ => String::from_value(value),
    }
}

/// Reads arguments.
pub fn de_arguments_as_string(value: &Value) -> (arguments: String)
    ensures
        arguments@ == arguments_text(json::value_json(*value)),
{
    match open_value(value) {
        JsonRef::Null => String::new(),
        JsonRef::Str(text) => text.to_string(),
        _ => print_value(value),
    }
}

/// Reads a usage that may be `null`.
pub fn de_usage_or_default(value: &Value) -> (result: Result<OpenAIUsage, String>)
    ensures
        decode::decoded(result, usage_or_default(json::value_json(*value))),
{
    match open_value(value) {
        JsonRef::Null => Ok(OpenAIUsage::default()),
        _ => OpenAIUsage::from_value(value),
    }
}

/// Reads the choices of a response.
pub fn de_choices_or_empty(value: &Value) -> (result: Result<Vec<OpenAIChatChoice>, String>)
    ensures
        decode::decoded(result, choices_or_empty(json::value_json(*value))),
{
    match open_value(value) {
        JsonRef::Null => {
            let choices: Vec<OpenAIChatChoice> = Vec::new();
            assert(choices.deep_view() =~= Seq::empty());
            Ok(choices)
        },
        _ => Vec::<OpenAIChatChoice>::from_value(value),
    }
}

/// Reads the choices of a frame.
pub fn de_choices_lenient(value: &Value) -> (result: Result<Vec<OpenAIStreamChoice>, String>)
    ensures
        decode::decoded(result, choices_lenient(json::value_json(*value))),
{
    match open_value(value) {
        JsonRef::Array(_) => Vec::<OpenAIStreamChoice>::from_value(value),
        _ => {
            let choices: Vec<OpenAIStreamChoice> = Vec::new();
            assert(choices.deep_view() =~= Seq::empty());
            Ok(choices)
        },
    }
}

impl FromJson for OpenAIUsage {
    open spec fn from_json(doc: json::Json) -> Option<OpenAIUsageView> {
        let shape = decode::record_shape(doc, 3);
        let prompt_tokens = decode::required_member::<i64>(doc, 0, "prompt_tokens"@);
        let completion_tokens = decode::required_member::<i64>(doc, 1, "completion_tokens"@);
        let total_tokens = decode::required_member::<i64>(doc, 2, "total_tokens"@);
        if !shape || prompt_tokens is None || completion_tokens is None || total_tokens is None {
            None
        } else {
            Some(
                OpenAIUsageView {
                    prompt_tokens: prompt_tokens->Some_0,
                    completion_tokens: completion_tokens->Some_0,
                    total_tokens: total_tokens->Some_0,
                },
            )
        }
    }

    fn from_value(value: &Value) -> (result: Result<OpenAIUsage, String>) {
        check_record(value, 3, "struct OpenAIUsage")?;
        let prompt_tokens: i64 = read_required(
            value,
            0,
            "prompt_tokens",
            "struct OpenAIUsage with 3 elements",
        )?;
        let completion_tokens: i64 = read_required(
            value,
            1,
            "completion_tokens",
            "struct OpenAIUsage with 3 elements",
        )?;
        let total_tokens: i64 = read_required(
            value,
            2,
            "total_tokens",
            "struct OpenAIUsage with 3 elements",
        )?;
        Ok(OpenAIUsage { prompt_tokens, completion_tokens, total_tokens })
    }
}

impl FromJson for OpenAIFunctionCall {
    open spec fn from_json(doc: json::Json) -> Option<OpenAIFunctionCallView> {
        let shape = decode::record_shape(doc, 2);
        let name = decode::optional_member::<Option<String>>(doc, 0, "name"@, None);
        let arguments = match decode::member_of(doc, 1, "arguments"@) {
            Some(member) => arguments_text(member),
            None => Seq::empty(),
        };
        if !shape || name is None {
            None
        } else {
            Some(
                OpenAIFunctionCallView {
                    name: name->Some_0,
                    arguments,
                },
            )
        }
    }

    fn from_value(value: &Value) -> (result: Result<OpenAIFunctionCall, String>) {
        check_record(value, 2, "struct OpenAIFunctionCall")?;
        let name: Option<String> = read_optional(value, 0, "name", None)?;
        let arguments: String = match find_member(value, 1, "arguments") {
            Some(member) => de_arguments_as_string(member),
            None => String::new(),
        };
        Ok(OpenAIFunctionCall { name, arguments })
    }
}

impl FromJson for OpenAIToolCall {
    open spec fn from_json(doc: json::Json) -> Option<OpenAIToolCallView> {
        let shape = decode::record_shape(doc, 3);
        let id = decode::required_member::<String>(doc, 0, "id"@);
        let kind = decode::required_member::<String>(doc, 1, "type"@);
        let function = decode::required_member::<OpenAIFunctionCall>(doc, 2, "function"@);
        if !shape || id is None || kind is None || function is None {
            None
        } else {
            Some(
                OpenAIToolCallView {
                    id: id->Some_0,
                    kind: kind->Some_0,
                    function: function->Some_0,
                },
            )
        }
    }

    fn from_value(value: &Value) -> (result: Result<OpenAIToolCall, String>) {
        check_record(value, 3, "struct OpenAIToolCall")?;
        let id: String = read_required(value, 0, "id", "struct OpenAIToolCall with 3 elements")?;
        let kind: String = read_required(
            value,
            1,
            "type",
            "struct OpenAIToolCall with 3 elements",
        )?;
        let function: OpenAIFunctionCall = read_required(
            value,
            2,
            "function",
            "struct OpenAIToolCall with 3 elements",
        )?;
        Ok(OpenAIToolCall { id, kind, function })
    }
}

impl FromJson for OpenAIChatMessage {
    open spec fn from_json(doc: json::Json) -> Option<OpenAIChatMessageView> {
        let shape = decode::record_shape(doc, 4);
        let role = decode::required_member::<String>(doc, 0, "role"@);
        let content = match decode::member_of(doc, 1, "content"@) {
            Some(member) => string_or_empty(member),
            None => Some(Seq::empty()),
        };
        let tool_calls = decode::optional_member::<Option<Vec<OpenAIToolCall>>>(
            doc,
            2,
            "tool_calls"@,
            None,
        );
        let reasoning_content = decode::optional_member::<Option<String>>(
            doc,
            3,
            "reasoning_content"@,
            None,
        );
        if !shape || role is None || content is None || tool_calls is None
            || reasoning_content is None {
            None
        } else {
            Some(
                OpenAIChatMessageView {
                    role: role->Some_0,
                    content: content->Some_0,
                    tool_calls: tool_calls->Some_0,
                    reasoning_content: reasoning_content->Some_0,
                },
            )
        }
    }

    fn from_value(value: &Value) -> (result: Result<OpenAIChatMessage, String>) {
        check_record(value, 4, "struct OpenAIChatMessage")?;
        let role: String = read_required(
            value,
            0,
            "role",
            "struct OpenAIChatMessage with 4 elements",
        )?;
        let content: String = match find_member(value, 1, "content") {
            Some(member) => de_string_or_empty(member)?,
            None => String::new(),
        };
        let tool_calls: Option<Vec<OpenAIToolCall>> = read_optional(value, 2, "tool_calls", None)?;
        let reasoning_content: Option<String> = read_optional(value, 3, "reasoning_content", None)?;
        Ok(OpenAIChatMessage { role, content, tool_calls, reasoning_content })
    }
}

impl FromJson for OpenAIChatChoice {
    open spec fn from_json(doc: json::Json) -> Option<OpenAIChatChoiceView> {
        let shape = decode::record_shape(doc, 3);
        let index = decode::required_member::<i64>(doc, 0, "index"@);
        let message = decode::required_member::<OpenAIChatMessage>(doc, 1, "message"@);
        let finish_reason = match decode::member_of(doc, 2, "finish_reason"@) {
            Some(member) => string_or_empty(member),
            None => Some(Seq::empty()),
        };
        if !shape || index is None || message is None || finish_reason is None {
            None
        } else {
            Some(
                OpenAIChatChoiceView {
                    index: index->Some_0,
                    message: message->Some_0,
                    finish_reason: finish_reason->Some_0,
                },
            )
        }
    }

    fn from_value(value: &Value) -> (result: Result<OpenAIChatChoice, String>) {
        check_record(value, 3, "struct OpenAIChatChoice")?;
        let index: i64 = read_required(
            value,
            0,
            "index",
            "struct OpenAIChatChoice with 3 elements",
        )?;
        let message: OpenAIChatMessage = read_required(
            value,
            1,
            "message",
            "struct OpenAIChatChoice with 3 elements",
        )?;
        let finish_reason: String = match find_member(value, 2, "finish_reason") {
            Some(member) => de_string_or_empty(member)?,
            None => String::new(),
        };
        Ok(OpenAIChatChoice { index, message, finish_reason })
    }
}

impl FromJson for OpenAIChatResponse {
    open spec fn from_json(doc: json::Json) -> Option<OpenAIChatResponseView> {
        let shape = decode::record_shape(doc, 5);
        let id = decode::required_member::<String>(doc, 0, "id"@);
        let object = decode::required_member::<String>(doc, 1, "object"@);
        let model = decode::required_member::<String>(doc, 2, "model"@);
        let choices = match decode::member_of(doc, 3, "choices"@) {
            Some(member) => choices_or_empty(member),
            None => Some(Seq::empty()),
        };
        let usage = match decode::member_of(doc, 4, "usage"@) {
            Some(member) => usage_or_default(member),
            None => Some(no_usage()),
        };
        if !shape || id is None || object is None || model is None || choices is None
            || usage is None {
            None
        } else {
            Some(
                OpenAIChatResponseView {
                    id: id->Some_0,
                    object: object->Some_0,
                    model: model->Some_0,
                    choices: choices->Some_0,
                    usage: usage->Some_0,
                },
            )
        }
    }

    fn from_value(value: &Value) -> (result: Result<OpenAIChatResponse, String>) {
        check_record(value, 5, "struct OpenAIChatResponse")?;
        let id: String = read_required(
            value,
            0,
            "id",
            "struct OpenAIChatResponse with 5 elements",
        )?;
        let object: String = read_required(
            value,
            1,
            "object",
            "struct OpenAIChatResponse with 5 elements",
        )?;
        let model: String = read_required(
            value,
            2,
            "model",
            "struct OpenAIChatResponse with 5 elements",
        )?;
        let choices: Vec<OpenAIChatChoice> = match find_member(value, 3, "choices") {
            Some(member) => de_choices_or_empty(member)?,
            None => {
                let none: Vec<OpenAIChatChoice> = Vec::new();
                assert(none.deep_view() =~= Seq::empty());
                none
            },
        };
        let usage: OpenAIUsage = match find_member(value, 4, "usage") {
            Some(member) => de_usage_or_default(member)?,
            None => OpenAIUsage::default(),
        };
        Ok(OpenAIChatResponse { id, object, model, choices, usage })
    }
}

impl FromJson for OpenAIStreamUsagePromptDetails {
    open spec fn from_json(doc: json::Json) -> Option<OpenAIStreamUsagePromptDetailsView> {
        let shape = decode::record_shape(doc, 1);
        let cached_tokens = decode::optional_member::<Option<i64>>(doc, 0, "cached_tokens"@, None);
        if !shape || cached_tokens is None {
            None
        } else {
            Some(
                OpenAIStreamUsagePromptDetailsView {
                    cached_tokens: cached_tokens->Some_0,
                },
            )
        }
    }

    fn from_value(value: &Value) -> (result: Result<OpenAIStreamUsagePromptDetails, String>) {
        check_record(value, 1, "struct OpenAIStreamUsagePromptDetails")?;
        let cached_tokens: Option<i64> = read_optional(value, 0, "cached_tokens", None)?;
        Ok(OpenAIStreamUsagePromptDetails { cached_tokens })
    }
}

impl FromJson for OpenAIStreamUsageCompletionDetails {
    open spec fn from_json(doc: json::Json) -> Option<OpenAIStreamUsageCompletionDetailsView> {
        let shape = decode::record_shape(doc, 1);
        let reasoning_tokens = decode::optional_member::<Option<i64>>(
            doc,
            0,
            "reasoning_tokens"@,
            None,
        );
        if !shape || reasoning_tokens is None {
            None
        } else {
            Some(
                OpenAIStreamUsageCompletionDetailsView {
                    reasoning_tokens: reasoning_tokens->Some_0,
                },
            )
        }
    }

    fn from_value(value: &Value) -> (result: Result<OpenAIStreamUsageCompletionDetails, String>) {
        check_record(value, 1, "struct OpenAIStreamUsageCompletionDetails")?;
        let reasoning_tokens: Option<i64> = read_optional(value, 0, "reasoning_tokens", None)?;
        Ok(OpenAIStreamUsageCompletionDetails { reasoning_tokens })
    }
}

impl FromJson for OpenAIStreamUsage {
    open spec fn from_json(doc: json::Json) -> Option<OpenAIStreamUsageView> {
        let shape = decode::record_shape(doc, 5);
        let prompt_tokens = decode::optional_member::<Option<i64>>(doc, 0, "prompt_tokens"@, None);
        let completion_tokens = decode::optional_member::<Option<i64>>(
            doc,
            1,
            "completion_tokens"@,
            None,
        );
        let total_tokens = decode::optional_member::<Option<i64>>(doc, 2, "total_tokens"@, None);
        let prompt_tokens_details = decode::optional_member::<
            Option<OpenAIStreamUsagePromptDetails>,
        >(
            doc,
            3,
            "prompt_tokens_details"@,
            None,
        );
        let completion_tokens_details = decode::optional_member::<
            Option<OpenAIStreamUsageCompletionDetails>,
        >(
            doc,
            4,
            "completion_tokens_details"@,
            None,
        );
        if !shape || prompt_tokens is None || completion_tokens is None || total_tokens is None
            || prompt_tokens_details is None || completion_tokens_details is None {
            None
        } else {
            Some(
                OpenAIStreamUsageView {
                    prompt_tokens: prompt_tokens->Some_0,
                    completion_tokens: completion_tokens->Some_0,
                    total_tokens: total_tokens->Some_0,
                    prompt_tokens_details: prompt_tokens_details->Some_0,
                    completion_tokens_details: completion_tokens_details->Some_0,
                },
            )
        }
    }

    fn from_value(value: &Value) -> (result: Result<OpenAIStreamUsage, String>) {
        check_record(value, 5, "struct OpenAIStreamUsage")?;
        let completion_tokens: Option<i64> = read_optional(value, 1, "completion_tokens", None)?;
        let completion_tokens_details: Option<OpenAIStreamUsageCompletionDetails> = read_optional(
            value,
            4,
            "completion_tokens_details",
            None,
        )?;
        let prompt_tokens: Option<i64> = read_optional(value, 0, "prompt_tokens", None)?;
        let prompt_tokens_details: Option<OpenAIStreamUsagePromptDetails> = read_optional(
            value,
            3,
            "prompt_tokens_details",
            None,
        )?;
        let total_tokens: Option<i64> = read_optional(value, 2, "total_tokens", None)?;
        Ok(
            OpenAIStreamUsage {
                prompt_tokens,
                completion_tokens,
                total_tokens,
                prompt_tokens_details,
                completion_tokens_details,
            },
        )
    }
}

impl FromJson for OpenAIStreamToolCall {
    open spec fn from_json(doc: json::Json) -> Option<OpenAIStreamToolCallView> {
        let shape = decode::record_shape(doc, 4);
        let index = decode::optional_member::<Option<i64>>(doc, 0, "index"@, None);
        let id = decode::optional_member::<Option<String>>(doc, 1, "id"@, None);
        let kind = decode::optional_member::<Option<String>>(doc, 2, "type"@, None);
        let function = decode::optional_member::<OpenAIFunctionCall>(
            doc,
            3,
            "function"@,
            no_function(),
        );
        if !shape || index is None || id is None || kind is None || function is None {
            None
        } else {
            Some(
                OpenAIStreamToolCallView {
                    index: index->Some_0,
                    id: id->Some_0,
                    kind: kind->Some_0,
                    function: function->Some_0,
                },
            )
        }
    }

    fn from_value(value: &Value) -> (result: Result<OpenAIStreamToolCall, String>) {
        check_record(value, 4, "struct OpenAIStreamToolCall")?;
        let function: OpenAIFunctionCall = read_optional(
            value,
            3,
            "function",
            OpenAIFunctionCall::default(),
        )?;
        let id: Option<String> = read_optional(value, 1, "id", None)?;
        let index: Option<i64> = read_optional(value, 0, "index", None)?;
        let kind: Option<String> = read_optional(value, 2, "type", None)?;
        Ok(OpenAIStreamToolCall { index, id, kind, function })
    }
}

impl FromJson for OpenAIStreamDelta {
    open spec fn from_json(doc: json::Json) -> Option<OpenAIStreamDeltaView> {
        let shape = decode::record_shape(doc, 4);
        let role = decode::optional_member::<Option<String>>(doc, 0, "role"@, None);
        let content = decode::optional_member::<Option<String>>(doc, 1, "content"@, None);
        let reasoning_content = decode::optional_member::<Option<String>>(
            doc,
            2,
            "reasoning_content"@,
            None,
        );
        let tool_calls = decode::optional_member::<Option<Vec<OpenAIStreamToolCall>>>(
            doc,
            3,
            "tool_calls"@,
            None,
        );
        if !shape || role is None || content is None || reasoning_content is None
            || tool_calls is None {
            None
        } else {
            Some(
                OpenAIStreamDeltaView {
                    role: role->Some_0,
                    content: content->Some_0,
                    reasoning_content: reasoning_content->Some_0,
                    tool_calls: tool_calls->Some_0,
                },
            )
        }
    }

    fn from_value(value: &Value) -> (result: Result<OpenAIStreamDelta, String>) {
        check_record(value, 4, "struct OpenAIStreamDelta")?;
        let content: Option<String> = read_optional(value, 1, "content", None)?;
        let reasoning_content: Option<String> = read_optional(value, 2, "reasoning_content", None)?;
        let role: Option<String> = read_optional(value, 0, "role", None)?;
        let tool_calls: Option<Vec<OpenAIStreamToolCall>> = read_optional(
            value,
            3,
            "tool_calls",
            None,
        )?;
        Ok(OpenAIStreamDelta { role, content, reasoning_content, tool_calls })
    }
}

impl FromJson for OpenAIStreamChoice {
    open spec fn from_json(doc: json::Json) -> Option<OpenAIStreamChoiceView> {
        let shape = decode::record_shape(doc, 3);
        let index = decode::optional_member::<i64>(doc, 0, "index"@, 0);
        let delta = decode::optional_member::<OpenAIStreamDelta>(doc, 1, "delta"@, no_delta());
        let finish_reason = decode::optional_member::<Option<String>>(
            doc,
            2,
            "finish_reason"@,
            None,
        );
        if !shape || index is None || delta is None || finish_reason is None {
            None
        } else {
            Some(
                OpenAIStreamChoiceView {
                    index: index->Some_0,
                    delta: delta->Some_0,
                    finish_reason: finish_reason->Some_0,
                },
            )
        }
    }

    fn from_value(value: &Value) -> (result: Result<OpenAIStreamChoice, String>) {
        check_record(value, 3, "struct OpenAIStreamChoice")?;
        let delta: OpenAIStreamDelta = read_optional(
            value,
            1,
            "delta",
            OpenAIStreamDelta::default(),
        )?;
        let finish_reason: Option<String> = read_optional(value, 2, "finish_reason", None)?;
        let index: i64 = read_optional(value, 0, "index", 0)?;
        Ok(OpenAIStreamChoice { index, delta, finish_reason })
    }
}

impl FromJson for OpenAIStreamChunk {
    open spec fn from_json(doc: json::Json) -> Option<OpenAIStreamChunkView> {
        let shape = decode::record_shape(doc, 4);
        let id = decode::optional_member::<String>(doc, 0, "id"@, Seq::empty());
        let object = decode::optional_member::<String>(doc, 1, "object"@, Seq::empty());
        let choices = match decode::member_of(doc, 2, "choices"@) {
            Some(member) => choices_lenient(member),
            None => Some(Seq::empty()),
        };
        let usage = decode::optional_member::<Option<OpenAIStreamUsage>>(doc, 3, "usage"@, None);
        if !shape || id is None || object is None || choices is None || usage is None {
            None
        } else {
            Some(
                OpenAIStreamChunkView {
                    id: id->Some_0,
                    object: object->Some_0,
                    choices: choices->Some_0,
                    usage: usage->Some_0,
                },
            )
        }
    }

    fn from_value(value: &Value) -> (result: Result<OpenAIStreamChunk, String>) {
        check_record(value, 4, "struct OpenAIStreamChunk")?;
        let choices: Vec<OpenAIStreamChoice> = match find_member(value, 2, "choices") {
            Some(member) => de_choices_lenient(member)?,
            None => {
                let none: Vec<OpenAIStreamChoice> = Vec::new();
                assert(none.deep_view() =~= Seq::empty());
                none
            },
        };
        let id: String = read_optional(value, 0, "id", String::new())?;
        let object: String = read_optional(value, 1, "object", String::new())?;
        let usage: Option<OpenAIStreamUsage> = read_optional(value, 3, "usage", None)?;
        Ok(OpenAIStreamChunk { id, object, choices, usage })
    }
}

} // verus!
