//! The answer to a request.
use crate::models::adapters::openai::finish;
use crate::models::adapters::openai::finish::map_finish_reason;
use crate::models::types;
use crate::models::types::ChatContentBlock;
use crate::models::types::ChatResponse;
use crate::models::types::ChatUsage;
use crate::models::types::StreamEvent;
use crate::models::wire_anthropic::AnthropicContentBlock;
use crate::models::wire_anthropic::AnthropicResponse;
use crate::models::wire_anthropic::AnthropicUsage;
use crate::models::wire_openai;
use crate::models::wire_openai::OpenAIChatMessage;
use crate::models::wire_openai::OpenAIChatResponse;
use crate::models::wire_openai::OpenAIToolCall;
use crate::shared::errors;
use crate::shared::errors::Error;
use crate::shared::json;
use crate::shared::json::close_value;
use crate::shared::json::get_member;
use crate::shared::json::number_as_i64;
use crate::shared::json::open_value;
use crate::shared::json::parse_value;
use crate::shared::json::print_value;
use crate::shared::json::JsonNode;
use crate::shared::json::JsonObject;
use crate::shared::json::JsonRef;
use crate::shared::raw::FromText;
use crate::shared::text;
use crate::shared::text::lossy_text;
use crate::shared::text::same_text;
use serde_json::Value;
use vstd::prelude::*;

verus! {

/// What a block of an answer holds.
#[verifier::ext_equal]
pub ghost struct ContentView {
    pub kind: Seq<char>,
    pub text: Option<Seq<char>>,
    pub thinking: Option<Seq<char>>,
    pub id: Option<Seq<char>>,
    pub name: Option<Seq<char>>,
    pub input: Option<json::Json>,
}

/// What an answer holds.
#[verifier::ext_equal]
pub ghost struct AnswerView {
    pub id: Seq<char>,
    pub kind: Seq<char>,
    pub model: Seq<char>,
    pub role: Seq<char>,
    pub content: Seq<ContentView>,
    pub stop_reason: Seq<char>,
    pub input_tokens: i64,
    pub output_tokens: i64,
}

impl View for ChatContentBlock {
    type V = ContentView;

    open spec fn view(&self) -> ContentView {
        ContentView {
            kind: self.kind@,
            text: self.text.deep_view(),
            thinking: self.thinking.deep_view(),
            id: self.id.deep_view(),
            name: self.name.deep_view(),
            input: types::document(self.input),
        }
    }
}

impl View for AnthropicContentBlock {
    type V = ContentView;

    open spec fn view(&self) -> ContentView {
        ContentView {
            kind: self.kind@,
            text: self.text.deep_view(),
            thinking: self.thinking.deep_view(),
            id: self.id.deep_view(),
            name: self.name.deep_view(),
            input: types::document(self.input),
        }
    }
}

impl View for ChatResponse {
    type V = AnswerView;

    open spec fn view(&self) -> AnswerView {
        AnswerView {
            id: self.id@,
            kind: self.kind@,
            model: self.model@,
            role: self.role@,
            content: Seq::new(self.content@.len(), |i: int| self.content@[i]@),
            stop_reason: self.stop_reason@,
            input_tokens: self.usage.input_tokens,
            output_tokens: self.usage.output_tokens,
        }
    }
}

impl View for AnthropicResponse {
    type V = AnswerView;

    open spec fn view(&self) -> AnswerView {
        AnswerView {
            id: self.id@,
            kind: self.kind@,
            model: self.model@,
            role: self.role@,
            content: Seq::new(self.content@.len(), |i: int| self.content@[i]@),
            stop_reason: self.stop_reason@,
            input_tokens: self.usage.input_tokens,
            output_tokens: self.usage.output_tokens,
        }
    }
}

/// A block of that kind with nothing in it.
pub open spec fn bare(kind: Seq<char>) -> ContentView {
    ContentView { kind, text: None, thinking: None, id: None, name: None, input: None }
}

/// The document that a text holds, or else the text itself.
pub open spec fn parsed_or_text(s: Seq<char>) -> json::Json {
    match json::json_parse(s) {
        Ok(doc) => doc,
        Err(_) => json::Json::Str(s),
    }
}

/// The thinking of a message: one block, where there is any.
pub open spec fn thinking_part(message: wire_openai::OpenAIChatMessageView) -> Seq<ContentView> {
    match message.reasoning_content {
        Some(text) => if text.len() > 0 {
            seq![ContentView { thinking: Some(text), ..bare("thinking"@) }]
        } else {
            Seq::empty()
        },
        None => Seq::empty(),
    }
}

/// The text of a message: one block, where there is any.
pub open spec fn text_part(message: wire_openai::OpenAIChatMessageView) -> Seq<ContentView> {
    if message.content.len() > 0 {
        seq![ContentView { text: Some(message.content), ..bare("text"@) }]
    } else {
        Seq::empty()
    }
}

/// The block of a tool call.
pub open spec fn tool_block(call: wire_openai::OpenAIToolCallView) -> ContentView {
    ContentView {
        id: Some(call.id),
        name: call.function.name,
        input: Some(parsed_or_text(call.function.arguments)),
        ..bare("tool_use"@)
    }
}

/// The tool calls of a message: one block each.
pub open spec fn tool_part(message: wire_openai::OpenAIChatMessageView) -> Seq<ContentView> {
    match message.tool_calls {
        Some(calls) => Seq::new(calls.len(), |i: int| tool_block(calls[i])),
        None => Seq::empty(),
    }
}

/// The blocks of an answer: those of the first choice, where there is one.
pub open spec fn content_of(oai: wire_openai::OpenAIChatResponseView) -> Seq<ContentView> {
    if oai.choices.len() > 0 {
        let message = oai.choices[0].message;
        thinking_part(message) + text_part(message) + tool_part(message)
    } else {
        Seq::empty()
    }
}

/// The answer that a response stands for.
pub open spec fn answer_of(oai: wire_openai::OpenAIChatResponseView) -> AnswerView {
    AnswerView {
        id: oai.id,
        kind: "message"@,
        model: oai.model,
        role: "assistant"@,
        content: content_of(oai),
        stop_reason: if oai.choices.len() > 0 {
            finish::stop_reason(oai.choices[0].finish_reason)
        } else {
            Seq::empty()
        },
        input_tokens: oai.usage.prompt_tokens,
        output_tokens: oai.usage.completion_tokens,
    }
}

/// What an envelope carries. `None` where the document is no envelope: it has no `data`.
pub open spec fn data_of(wrapper: json::Json) -> Option<json::Json> {
    match wrapper {
        json::Json::Object(members) => if members.dom().contains("data"@) && !(members["data"@]
            is Null) {
            Some(members["data"@])
        } else {
            None
        },
        _ => None,
    }
}

/// The code of an envelope; 0 where it has none.
pub open spec fn code_of(wrapper: json::Json) -> i64 {
    match wrapper {
        json::Json::Object(members) => if members.dom().contains("code"@) {
            match members["code"@] {
                json::Json::Number(n) => match json::number_i64(n) {
                    Some(code) => code,
                    None => 0,
                },
                _ => 0,
            }
        } else {
            0
        },
        _ => 0,
    }
}

/// The message of an envelope; empty where it has none.
pub open spec fn message_of(wrapper: json::Json) -> Seq<char> {
    match wrapper {
        json::Json::Object(members) => if members.dom().contains("message"@) {
            match members["message"@] {
                json::Json::Str(message) => message,
                _ => Seq::empty(),
            }
        } else {
            Seq::empty()
        },
        _ => Seq::empty(),
    }
}

/// The text that an envelope carries. An envelope with a code is a refusal; a document that is no
/// envelope stands for itself.
pub open spec fn opened(wrapper: json::Json, body: Seq<char>) -> Result<
    Seq<char>,
    errors::ErrorView,
> {
    match data_of(wrapper) {
        Some(data) => if code_of(wrapper) != 0 {
            Err(
                errors::ErrorView::Business {
                    code: code_of(wrapper),
                    message: message_of(wrapper),
                },
            )
        } else {
            Ok(json::json_print(data))
        },
        None => Ok(body),
    }
}

/// The text that a body carries, with or without an envelope.
pub open spec fn unwrapped(body: Seq<char>) -> Result<Seq<char>, errors::ErrorView> {
    match json::json_parse(body) {
        Ok(wrapper) => opened(wrapper, body),
        Err(_) => Ok(body),
    }
}

/// The response that bytes stand for, where they stand for one. It is read straight from the text:
/// members that it does not know are skipped, and one that it knows may be written once only.
pub open spec fn response_in(bytes: Seq<u8>) -> Option<wire_openai::OpenAIChatResponseView> {
    match unwrapped(text::utf8_lossy(bytes)) {
        Ok(raw) => OpenAIChatResponse::from_text(raw),
        Err(_) => None,
    }
}

/// `error` is the complaint about bytes that are no response: the refusal of the gateway, where the
/// bytes are one. Otherwise it is about what the bytes carry, and how it goes on is not fixed.
pub open spec fn response_error(error: errors::ErrorView, bytes: Seq<u8>) -> bool {
    match unwrapped(text::utf8_lossy(bytes)) {
        Ok(_) => error matches errors::ErrorView::Other(message)
            && "decode openai response: "@.is_prefix_of(message),
        Err(refusal) => error == refusal,
    }
}

/// Reads a text as JSON, or else takes it as it is.
pub fn try_parse_json(s: &str) -> (value: Value)
    ensures
        json::value_json(value) == parsed_or_text(s@),
{
    match parse_value(s) {
        Ok(value) => value,
        Err(_) => close_value(JsonNode::Str(s.to_string())),
    }
}

fn read_code(wrapper: &JsonObject) -> (code: i64)
    ensures
        code == code_of(json::Json::Object(json::object_json(*wrapper))),
{
    match get_member(wrapper, "code") {
        Some(member) => match open_value(member) {
            JsonRef::Number(n) => match number_as_i64(n) {
                Some(code) => code,
                None => 0,
            },
            _ => 0,
        },
        None => 0,
    }
}

fn read_message(wrapper: &JsonObject) -> (message: String)
    ensures
        message@ == message_of(json::Json::Object(json::object_json(*wrapper))),
{
    match get_member(wrapper, "message") {
        Some(member) => match open_value(member) {
            JsonRef::Str(message) => message.to_string(),
            _ => String::new(),
        },
        None => String::new(),
    }
}

fn read_data(wrapper: &JsonObject) -> (data: Option<&Value>)
    ensures
        match data {
            Some(value) => data_of(json::Json::Object(json::object_json(*wrapper))) == Some(
                json::value_json(*value),
            ),
            None => data_of(json::Json::Object(json::object_json(*wrapper))) is None,
        },
{
    match get_member(wrapper, "data") {
        Some(member) => match open_value(member) {
            JsonRef::Null => None,
            _ => Some(member),
        },
        None => None,
    }
}

/// `result` is the outcome `expected`.
pub open spec fn text_told(
    result: errors::Result<String>,
    expected: Result<Seq<char>, errors::ErrorView>,
) -> bool {
    match result {
        Ok(text) => expected == Ok::<Seq<char>, errors::ErrorView>(text@),
        Err(error) => expected == Err::<Seq<char>, errors::ErrorView>(error@),
    }
}

/// `result` is the response that bytes stand for.
pub open spec fn response_told(
    result: errors::Result<OpenAIChatResponse>,
    bytes: Seq<u8>,
) -> bool {
    match result {
        Ok(oai) => response_in(bytes) == Some(oai.deep_view()),
        Err(error) => response_in(bytes) is None && response_error(error@, bytes),
    }
}

/// Takes the text out of an envelope.
pub fn open_envelope(wrapper: &Value, body: &str) -> (result: errors::Result<String>)
    ensures
        text_told(result, opened(json::value_json(*wrapper), body@)),
{
    match open_value(wrapper) {
        JsonRef::Object(members) => match read_data(members) {
            Some(data) => {
                let code: i64 = read_code(members);
                if code != 0 {
                    Err(Error::business(code, read_message(members)))
                } else {
                    Ok(print_value(data))
                }
            },
            None => Ok(body.to_string()),
        },
        _ => Ok(body.to_string()),
    }
}

/// Takes the text out of a body, with or without an envelope.
pub fn unwrap_api_response(body: &[u8]) -> (result: errors::Result<String>)
    ensures
        text_told(result, unwrapped(text::utf8_lossy(body@))),
{
    let text: String = lossy_text(body);
    match parse_value(text.as_str()) {
        Ok(wrapper) => open_envelope(&wrapper, text.as_str()),
        Err(_) => Ok(text),
    }
}

fn complain_response(message: &str) -> (error: Error)
    ensures
        error@ == errors::ErrorView::Other("decode openai response: "@ + message@),
{
    Error::other("decode openai response: ".to_string().concat(message))
}

fn read_response(body: &[u8]) -> (result: errors::Result<OpenAIChatResponse>)
    ensures
        response_told(result, body@),
{
    match unwrap_api_response(body) {
        Ok(raw) => match OpenAIChatResponse::read_text(raw.as_str()) {
            Ok(oai) => Ok(oai),
            Err(message) => Err(complain_response(message.as_str())),
        },
        Err(error) => Err(error),
    }
}

fn clone_text(s: &Option<String>) -> (clone: Option<String>)
    ensures
        clone.deep_view() == s.deep_view(),
{
    match s {
        Some(text) => Some(text.clone()),
        None => None,
    }
}

fn chat_tool_block(call: &OpenAIToolCall) -> (block: ChatContentBlock)
    ensures
        block@ == tool_block(call.deep_view()),
{
    ChatContentBlock {
        kind: "tool_use".to_string(),
        text: None,
        thinking: None,
        id: Some(call.id.clone()),
        name: clone_text(&call.function.name),
        input: Some(try_parse_json(call.function.arguments.as_str())),
    }
}

fn anthropic_tool_block(call: &OpenAIToolCall) -> (block: AnthropicContentBlock)
    ensures
        block@ == tool_block(call.deep_view()),
{
    AnthropicContentBlock {
        kind: "tool_use".to_string(),
        text: None,
        thinking: None,
        id: Some(call.id.clone()),
        name: clone_text(&call.function.name),
        input: Some(try_parse_json(call.function.arguments.as_str())),
    }
}

fn chat_content(message: &OpenAIChatMessage) -> (content: Vec<ChatContentBlock>)
    ensures
        Seq::new(content@.len(), |i: int| content@[i]@) == thinking_part(message.deep_view())
            + text_part(message.deep_view()) + tool_part(message.deep_view()),
{
    let ghost told = message.deep_view();
    let mut content: Vec<ChatContentBlock> = Vec::new();
    if let Some(text) = &message.reasoning_content {
        if !text.as_str().is_empty() {
            content.push(
                ChatContentBlock {
                    kind: "thinking".to_string(),
                    text: None,
                    thinking: Some(text.clone()),
                    id: None,
                    name: None,
                    input: None,
                },
            );
        }
    }
    assert(Seq::new(content@.len(), |i: int| content@[i]@) =~= thinking_part(told));
    if !message.content.as_str().is_empty() {
        content.push(
            ChatContentBlock {
                kind: "text".to_string(),
                text: Some(message.content.clone()),
                thinking: None,
                id: None,
                name: None,
                input: None,
            },
        );
    }
    let ghost front = thinking_part(told) + text_part(told);
    assert(Seq::new(content@.len(), |i: int| content@[i]@) =~= front);
    if let Some(calls) = &message.tool_calls {
        let mut i: usize = 0;
        while i < calls.len()
            invariant
                i <= calls@.len(),
                content@.len() == front.len() + i,
                forall|j: int| 0 <= j < front.len() ==> (#[trigger] content@[j])@ == front[j],
                forall|j: int|
                    front.len() <= j < front.len() + i ==> (#[trigger] content@[j])@ == tool_block(
                        calls@[j - front.len()].deep_view(),
                    ),
            decreases calls@.len() - i,
        {
            content.push(chat_tool_block(&calls[i]));
            i += 1;
        }
    }
    assert(Seq::new(content@.len(), |i: int| content@[i]@) =~= front + tool_part(told));
    content
}

fn anthropic_content(message: &OpenAIChatMessage) -> (content: Vec<AnthropicContentBlock>)
    ensures
        Seq::new(content@.len(), |i: int| content@[i]@) == thinking_part(message.deep_view())
            + text_part(message.deep_view()) + tool_part(message.deep_view()),
{
    let ghost told = message.deep_view();
    let mut content: Vec<AnthropicContentBlock> = Vec::new();
    if let Some(text) = &message.reasoning_content {
        if !text.as_str().is_empty() {
            content.push(
                AnthropicContentBlock {
                    kind: "thinking".to_string(),
                    text: None,
                    thinking: Some(text.clone()),
                    id: None,
                    name: None,
                    input: None,
                },
            );
        }
    }
    assert(Seq::new(content@.len(), |i: int| content@[i]@) =~= thinking_part(told));
    if !message.content.as_str().is_empty() {
        content.push(
            AnthropicContentBlock {
                kind: "text".to_string(),
                text: Some(message.content.clone()),
                thinking: None,
                id: None,
                name: None,
                input: None,
            },
        );
    }
    let ghost front = thinking_part(told) + text_part(told);
    assert(Seq::new(content@.len(), |i: int| content@[i]@) =~= front);
    if let Some(calls) = &message.tool_calls {
        let mut i: usize = 0;
        while i < calls.len()
            invariant
                i <= calls@.len(),
                content@.len() == front.len() + i,
                forall|j: int| 0 <= j < front.len() ==> (#[trigger] content@[j])@ == front[j],
                forall|j: int|
                    front.len() <= j < front.len() + i ==> (#[trigger] content@[j])@ == tool_block(
                        calls@[j - front.len()].deep_view(),
                    ),
            decreases calls@.len() - i,
        {
            content.push(anthropic_tool_block(&calls[i]));
            i += 1;
        }
    }
    assert(Seq::new(content@.len(), |i: int| content@[i]@) =~= front + tool_part(told));
    content
}

fn first_stop_reason(oai: &OpenAIChatResponse) -> (reason: String)
    ensures
        reason@ == answer_of(oai.deep_view()).stop_reason,
{
    if oai.choices.len() > 0 {
        map_finish_reason(oai.choices[0].finish_reason.as_str())
    } else {
        String::new()
    }
}

/// The answer that a response stands for. It does not say what remains.
pub fn convert_openai_to_chat_response(oai: &OpenAIChatResponse) -> (answer: ChatResponse)
    ensures
        answer@ == answer_of(oai.deep_view()),
        answer.token_remaining == -1,
        answer.call_remaining == -1,
        answer.model_token_remaining == -1,
        answer.model_token_remaining_etu == -1,
{
    let content: Vec<ChatContentBlock> = if oai.choices.len() > 0 {
        chat_content(&oai.choices[0].message)
    } else {
        Vec::new()
    };
    let answer: ChatResponse = ChatResponse {
        id: oai.id.clone(),
        kind: "message".to_string(),
        model: oai.model.clone(),
        role: "assistant".to_string(),
        content,
        stop_reason: first_stop_reason(oai),
        usage: ChatUsage {
            input_tokens: oai.usage.prompt_tokens,
            output_tokens: oai.usage.completion_tokens,
        },
        token_remaining: -1,
        call_remaining: -1,
        model_token_remaining: -1,
        model_token_remaining_etu: -1,
    };
    assert(answer@.content =~= content_of(oai.deep_view()));
    answer
}

/// The answer that a response stands for, in the Anthropic dialect.
pub fn convert_openai_to_anthropic(oai: &OpenAIChatResponse) -> (answer: AnthropicResponse)
    ensures
        answer@ == answer_of(oai.deep_view()),
        answer.stop_sequence is None,
{
    let content: Vec<AnthropicContentBlock> = if oai.choices.len() > 0 {
        anthropic_content(&oai.choices[0].message)
    } else {
        Vec::new()
    };
    let answer: AnthropicResponse = AnthropicResponse {
        id: oai.id.clone(),
        kind: "message".to_string(),
        role: "assistant".to_string(),
        content,
        model: oai.model.clone(),
        stop_reason: first_stop_reason(oai),
        stop_sequence: None,
        usage: AnthropicUsage {
            input_tokens: oai.usage.prompt_tokens,
            output_tokens: oai.usage.completion_tokens,
        },
    };
    assert(answer@.content =~= content_of(oai.deep_view()));
    answer
}

/// Reads an answer out of a body, with or without an envelope.
pub fn parse_response(body: &[u8]) -> (result: errors::Result<ChatResponse>)
    ensures
        match response_in(body@) {
            Some(oai) => result matches Ok(answer) && answer@ == answer_of(oai)
                && answer.token_remaining == -1 && answer.call_remaining == -1
                && answer.model_token_remaining == -1 && answer.model_token_remaining_etu == -1,
            None => result matches Err(error) && response_error(error@, body@),
        },
{
    match read_response(body) {
        Ok(oai) => Ok(convert_openai_to_chat_response(&oai)),
        Err(error) => Err(error),
    }
}

/// Reads an answer out of a body, with or without an envelope, into the Anthropic dialect.
pub fn parse_openai_response_to_anthropic(raw: &[u8]) -> (result: errors::Result<AnthropicResponse>)
    ensures
        match response_in(raw@) {
            Some(oai) => result matches Ok(answer) && answer@ == answer_of(oai)
                && answer.stop_sequence is None,
            None => result matches Err(error) && response_error(error@, raw@),
        },
{
    match read_response(raw) {
        Ok(oai) => Ok(convert_openai_to_anthropic(&oai)),
        Err(error) => Err(error),
    }
}

/// Passes a line of a stream on, and says whether it announces the end. A line that is not JSON is
/// an error.
pub fn parse_stream_line(event_type: &str, data: &str) -> (result: errors::Result<
    (StreamEvent, bool),
>)
    ensures
        if data@ == "[DONE]"@ {
            result matches Ok((event, done)) && done && event.event@.len() == 0
                && event.data@.len() == 0
        } else {
            match json::json_parse(data@) {
                Ok(_) => result matches Ok((event, done)) && !done && event.event@ == event_type@
                    && event.data@ == data@,
                Err(message) => result matches Err(error) && error@ == errors::ErrorView::Other(
                    "parse openai stream chunk: "@ + message,
                ),
            }
        },
{
    if same_text(data, "[DONE]") {
        return Ok((StreamEvent::default(), true));
    }
    match parse_value(data) {
        Ok(_) => Ok(
            (StreamEvent { event: event_type.to_string(), data: data.to_string() }, false),
        ),
        Err(message) => Err(
            Error::other("parse openai stream chunk: ".to_string().concat(message.as_str())),
        ),
    }
}

/// A reason why an answer ended is never made up: where the response gives none, the answer has none.
pub proof fn law_no_reason_is_made_up(oai: wire_openai::OpenAIChatResponseView)
    requires
        oai.choices.len() > 0 ==> oai.choices[0].finish_reason.len() == 0,
    ensures
        answer_of(oai).stop_reason.len() == 0,
{
    reveal_strlit("stop");
    reveal_strlit("tool_calls");
    reveal_strlit("length");
    assert("stop"@.len() == 4);
    assert("tool_calls"@.len() == 10);
    assert("length"@.len() == 6);
}

/// No block of an answer is empty: a block of thinking or text has some, and one of a tool call has
/// its id and its input.
pub proof fn law_no_block_is_empty(oai: wire_openai::OpenAIChatResponseView, i: int)
    requires
        0 <= i < content_of(oai).len(),
    ensures
        ({
            let block = content_of(oai)[i];
            ||| block.thinking matches Some(text) && text.len() > 0
            ||| block.text matches Some(text) && text.len() > 0
            ||| block.id is Some && block.input is Some
        }),
{
    let message = oai.choices[0].message;
    let thinking = thinking_part(message);
    let text = text_part(message);
    let tools = tool_part(message);
    if i < thinking.len() {
        assert(content_of(oai)[i] == thinking[i]);
    } else if i < thinking.len() + text.len() {
        assert(content_of(oai)[i] == text[i - thinking.len()]);
    } else {
        assert(content_of(oai)[i] == tools[i - thinking.len() - text.len()]);
    }
}

/// Only the first choice counts.
pub proof fn law_only_the_first_choice_counts(
    oai: wire_openai::OpenAIChatResponseView,
    others: Seq<wire_openai::OpenAIChatChoiceView>,
)
    requires
        oai.choices.len() > 0,
    ensures
        answer_of(oai) == answer_of(
            wire_openai::OpenAIChatResponseView {
                choices: seq![oai.choices[0]] + others,
                ..oai
            },
        ),
{
}

} // verus!
