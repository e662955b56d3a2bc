//! Reading a response straight from its text. The other records are read as parts of one.
use crate::models::wire_openai;
use crate::models::wire_openai::de_arguments_as_string;
use crate::models::wire_openai::OpenAIChatChoice;
use crate::models::wire_openai::OpenAIChatMessage;
use crate::models::wire_openai::OpenAIChatResponse;
use crate::models::wire_openai::OpenAIFunctionCall;
use crate::models::wire_openai::OpenAIToolCall;
use crate::models::wire_openai::OpenAIUsage;
use crate::shared::raw;
use crate::shared::raw::check_text;
use crate::shared::raw::find_text;
use crate::shared::raw::open_text;
use crate::shared::raw::read_inner_document;
use crate::shared::raw::read_optional_text;
use crate::shared::raw::read_required_text;
use crate::shared::raw::FromText;
use crate::shared::raw::RawShape;
use vstd::prelude::*;

verus! {

/// How deep the arguments of a tool call lie in a response: in its choices, one of them, its message,
/// the tool calls, one of them, and the function.
pub const ARGUMENTS_DEPTH: usize = 7;

/// The arguments that a text stands for, where the JSON parser can read it.
pub open spec fn arguments_from_text(text: Seq<char>) -> Option<Seq<char>> {
    match raw::inner_document(text, ARGUMENTS_DEPTH as nat) {
        Some(doc) => Some(wire_openai::arguments_text(doc)),
        None => None,
    }
}

fn read_arguments(text: &str) -> (result: Result<String, String>)
    ensures
        match result {
            Ok(arguments) => arguments_from_text(text@) == Some(arguments@),
            Err(_) => arguments_from_text(text@) is None,
        },
{
    match read_inner_document(text, ARGUMENTS_DEPTH) {
        Ok(doc) => Ok(de_arguments_as_string(&doc)),
        Err(message) => Err(message),
    }
}

/// A value that may be missing, or `null`.
pub open spec fn given_or<V>(read: Option<Option<V>>, default: V) -> Option<V> {
    match read {
        Some(Some(value)) => Some(value),
        Some(None) => Some(default),
        None => None,
    }
}

impl FromText for OpenAIUsage {
    open spec fn from_text(text: Seq<char>) -> Option<wire_openai::OpenAIUsageView> {
        let shape = raw::shape_of(text);
        let prompt_tokens = raw::required_text::<i64>(shape, 0, "prompt_tokens"@);
        let completion_tokens = raw::required_text::<i64>(shape, 1, "completion_tokens"@);
        let total_tokens = raw::required_text::<i64>(shape, 2, "total_tokens"@);
        if !raw::record_text(shape, 3) || prompt_tokens is None || completion_tokens is None
            || total_tokens is None {
            None
        } else {
            Some(
                wire_openai::OpenAIUsageView {
                    prompt_tokens: prompt_tokens->Some_0,
                    completion_tokens: completion_tokens->Some_0,
                    total_tokens: total_tokens->Some_0,
                },
            )
        }
    }

    fn read_text(text: &str) -> (result: Result<OpenAIUsage, String>) {
        let shape: RawShape<'_> = open_text(text);
        check_text(&shape, 3, "struct OpenAIUsage")?;
        let record: &str = "struct OpenAIUsage with 3 elements";
        let prompt_tokens: i64 = read_required_text(&shape, 0, "prompt_tokens", record)?;
        let completion_tokens: i64 = read_required_text(&shape, 1, "completion_tokens", record)?;
        let total_tokens: i64 = read_required_text(&shape, 2, "total_tokens", record)?;
        Ok(OpenAIUsage { prompt_tokens, completion_tokens, total_tokens })
    }
}

impl FromText for OpenAIFunctionCall {
    open spec fn from_text(text: Seq<char>) -> Option<wire_openai::OpenAIFunctionCallView> {
        let shape = raw::shape_of(text);
        let name = raw::optional_text::<Option<String>>(shape, 0, "name"@, None);
        let arguments = match raw::member_text(shape, 1, "arguments"@) {
            Some(Some(member)) => arguments_from_text(member),
            Some(None) => Some(Seq::empty()),
            None => None,
        };
        if !raw::record_text(shape, 2) || name is None || arguments is None {
            None
        } else {
            Some(
                wire_openai::OpenAIFunctionCallView {
                    name: name->Some_0,
                    arguments: arguments->Some_0,
                },
            )
        }
    }

    fn read_text(text: &str) -> (result: Result<OpenAIFunctionCall, String>) {
        let shape: RawShape<'_> = open_text(text);
        check_text(&shape, 2, "struct OpenAIFunctionCall")?;
        let name: Option<String> = read_optional_text(&shape, 0, "name", None)?;
        let arguments: String = match find_text(&shape, 1, "arguments")? {
            Some(member) => read_arguments(member)?,
            None => String::new(),
        };
        Ok(OpenAIFunctionCall { name, arguments })
    }
}

impl FromText for OpenAIToolCall {
    open spec fn from_text(text: Seq<char>) -> Option<wire_openai::OpenAIToolCallView> {
        let shape = raw::shape_of(text);
        let id = raw::required_text::<String>(shape, 0, "id"@);
        let kind = raw::required_text::<String>(shape, 1, "type"@);
        let function = raw::required_text::<OpenAIFunctionCall>(shape, 2, "function"@);
        if !raw::record_text(shape, 3) || id is None || kind is None || function is None {
            None
        } else {
            Some(
                wire_openai::OpenAIToolCallView {
                    id: id->Some_0,
                    kind: kind->Some_0,
                    function: function->Some_0,
                },
            )
        }
    }

    fn read_text(text: &str) -> (result: Result<OpenAIToolCall, String>) {
        let shape: RawShape<'_> = open_text(text);
        check_text(&shape, 3, "struct OpenAIToolCall")?;
        let record: &str = "struct OpenAIToolCall with 3 elements";
        let id: String = read_required_text(&shape, 0, "id", record)?;
        let kind: String = read_required_text(&shape, 1, "type", record)?;
        let function: OpenAIFunctionCall = read_required_text(&shape, 2, "function", record)?;
        Ok(OpenAIToolCall { id, kind, function })
    }
}

impl FromText for OpenAIChatMessage {
    open spec fn from_text(text: Seq<char>) -> Option<wire_openai::OpenAIChatMessageView> {
        let shape = raw::shape_of(text);
        let role = raw::required_text::<String>(shape, 0, "role"@);
        let content = given_or(
            raw::optional_text::<Option<String>>(shape, 1, "content"@, None),
            Seq::empty(),
        );
        let tool_calls = raw::optional_text::<Option<Vec<OpenAIToolCall>>>(shape, 2, "tool_calls"@, None);
        let reasoning_content = raw::optional_text::<Option<String>>(shape, 3, "reasoning_content"@, None);
        if !raw::record_text(shape, 4) || role is None || content is None
            || tool_calls is None || reasoning_content is None {
            None
        } else {
            Some(
                wire_openai::OpenAIChatMessageView {
                    role: role->Some_0,
                    content: content->Some_0,
                    tool_calls: tool_calls->Some_0,
                    reasoning_content: reasoning_content->Some_0,
                },
            )
        }
    }

    fn read_text(text: &str) -> (result: Result<OpenAIChatMessage, String>) {
        let shape: RawShape<'_> = open_text(text);
        check_text(&shape, 4, "struct OpenAIChatMessage")?;
        let record: &str = "struct OpenAIChatMessage with 4 elements";
        let role: String = read_required_text(&shape, 0, "role", record)?;
        let read: Option<String> = read_optional_text(&shape, 1, "content", None)?;
        let content: String = match read {
            Some(given) => given,
            None => String::new(),
        };
        let tool_calls: Option<Vec<OpenAIToolCall>> = read_optional_text(&shape, 2, "tool_calls", None)?;
        let reasoning_content: Option<String> = read_optional_text(&shape, 3, "reasoning_content", None)?;
        Ok(OpenAIChatMessage { role, content, tool_calls, reasoning_content })
    }
}

impl FromText for OpenAIChatChoice {
    open spec fn from_text(text: Seq<char>) -> Option<wire_openai::OpenAIChatChoiceView> {
        let shape = raw::shape_of(text);
        let index = raw::required_text::<i64>(shape, 0, "index"@);
        let message = raw::required_text::<OpenAIChatMessage>(shape, 1, "message"@);
        let finish_reason = given_or(
            raw::optional_text::<Option<String>>(shape, 2, "finish_reason"@, None),
            Seq::empty(),
        );
        if !raw::record_text(shape, 3) || index is None || message is None
            || finish_reason is None {
            None
        } else {
            Some(
                wire_openai::OpenAIChatChoiceView {
                    index: index->Some_0,
                    message: message->Some_0,
                    finish_reason: finish_reason->Some_0,
                },
            )
        }
    }

    fn read_text(text: &str) -> (result: Result<OpenAIChatChoice, String>) {
        let shape: RawShape<'_> = open_text(text);
        check_text(&shape, 3, "struct OpenAIChatChoice")?;
        let record: &str = "struct OpenAIChatChoice with 3 elements";
        let index: i64 = read_required_text(&shape, 0, "index", record)?;
        let message: OpenAIChatMessage = read_required_text(&shape, 1, "message", record)?;
        let read: Option<String> = read_optional_text(&shape, 2, "finish_reason", None)?;
        let finish_reason: String = match read {
            Some(given) => given,
            None => String::new(),
        };
        Ok(OpenAIChatChoice { index, message, finish_reason })
    }
}

impl FromText for OpenAIChatResponse {
    open spec fn from_text(text: Seq<char>) -> Option<wire_openai::OpenAIChatResponseView> {
        let shape = raw::shape_of(text);
        let id = raw::required_text::<String>(shape, 0, "id"@);
        let object = raw::required_text::<String>(shape, 1, "object"@);
        let model = raw::required_text::<String>(shape, 2, "model"@);
        let choices = given_or(
            raw::optional_text::<Option<Vec<OpenAIChatChoice>>>(shape, 3, "choices"@, None),
            Seq::empty(),
        );
        let usage = given_or(
            raw::optional_text::<Option<OpenAIUsage>>(shape, 4, "usage"@, None),
            wire_openai::no_usage(),
        );
        if !raw::record_text(shape, 5) || id is None || object is None || model is None
            || choices is None || usage is None {
            None
        } else {
            Some(
                wire_openai::OpenAIChatResponseView {
                    id: id->Some_0,
                    object: object->Some_0,
                    model: model->Some_0,
                    choices: choices->Some_0,
                    usage: usage->Some_0,
                },
            )
        }
    }

    fn read_text(text: &str) -> (result: Result<OpenAIChatResponse, String>) {
        let shape: RawShape<'_> = open_text(text);
        check_text(&shape, 5, "struct OpenAIChatResponse")?;
        let record: &str = "struct OpenAIChatResponse with 5 elements";
        let id: String = read_required_text(&shape, 0, "id", record)?;
        let object: String = read_required_text(&shape, 1, "object", record)?;
        let model: String = read_required_text(&shape, 2, "model", record)?;
        let read: Option<Vec<OpenAIChatChoice>> = read_optional_text(&shape, 3, "choices", None)?;
        let choices: Vec<OpenAIChatChoice> = match read {
            Some(given) => given,
            None => {
                let none: Vec<OpenAIChatChoice> = Vec::new();
                assert(none.deep_view() =~= Seq::empty());
                none
            },
        };
        let read: Option<OpenAIUsage> = read_optional_text(&shape, 4, "usage", None)?;
        let usage: OpenAIUsage = match read {
            Some(given) => given,
            None => OpenAIUsage::default(),
        };
        Ok(OpenAIChatResponse { id, object, model, choices, usage })
    }
}

} // verus!
