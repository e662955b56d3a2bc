//! What holds of every record that is read from the wire: each field holds what stands under its own
//! name.
use crate::models::wire_openai::de_arguments_as_string;
use crate::models::wire_openai::de_choices_lenient;
use crate::models::wire_openai::de_choices_or_empty;
use crate::models::wire_openai::de_string_or_empty;
use crate::models::wire_openai::de_usage_or_default;
use crate::models::wire_openai::OpenAIChatChoice;
use crate::models::wire_openai::OpenAIChatMessage;
use crate::models::wire_openai::OpenAIChatResponse;
use crate::models::wire_openai::OpenAIFunctionCall;
use crate::models::wire_openai::OpenAIStreamChoice;
use crate::models::wire_openai::OpenAIStreamChunk;
use crate::models::wire_openai::OpenAIStreamDelta;
use crate::models::wire_openai::OpenAIStreamToolCall;
use crate::models::wire_openai::OpenAIStreamUsage;
use crate::models::wire_openai::OpenAIStreamUsageCompletionDetails;
use crate::models::wire_openai::OpenAIStreamUsagePromptDetails;
use crate::models::wire_openai::OpenAIToolCall;
use crate::models::wire_openai::OpenAIUsage;
use crate::shared::decode::FromJson;
use crate::shared::decode_laws;
use crate::shared::documents;
use crate::shared::json;
use serde_json::Value;
use vstd::prelude::*;

verus! {

/// The part is there, and can be read as such a record.
pub open spec fn readable<T: FromJson>(part: Option<json::Json>) -> bool {
    part is Some && T::from_json(part->Some_0) is Some
}

/// The part is there, and the record is what is read from it.
pub open spec fn reads<T: FromJson>(part: Option<json::Json>, value: T) -> bool {
    part is Some && T::from_json(part->Some_0) == Some(value.deep_view())
}

/// The part is an array.
pub open spec fn is_list(part: Option<json::Json>) -> bool {
    part is Some && part->Some_0 is Array
}

/// The part is an array, and each of its items can be read as such a record.
pub open spec fn all_readable<T: FromJson>(part: Option<json::Json>) -> bool {
    &&& is_list(part)
    &&& forall|i: int|
        0 <= i < part->Some_0->Array_0.len() ==> T::from_json(
            #[trigger] part->Some_0->Array_0[i],
        ) is Some
}

/// The part is an array, and the records are what is read from its items, one for one.
pub open spec fn reads_all<T: FromJson>(part: Option<json::Json>, values: Vec<T>) -> bool {
    &&& is_list(part)
    &&& part->Some_0->Array_0.len() == values@.len()
    &&& forall|i: int|
        0 <= i < values@.len() ==> T::from_json(part->Some_0->Array_0[i]) == Some(
            (#[trigger] values@[i]).deep_view(),
        )
}

/// The arguments that the part stands for: its text, where it is one; none, where it is not there
/// or `null`; and the text of the document, where it is any other.
pub open spec fn is_arguments(part: Option<json::Json>, arguments: Seq<char>) -> bool {
    &&& documents::absent(part) ==> arguments.len() == 0
    &&& documents::is_text(part) ==> documents::says(part, arguments)
    &&& !documents::absent(part) && !documents::is_text(part) ==> arguments == json::json_print(
        part->Some_0,
    )
}

proof fn lemma_list<T: FromJson>(part: Option<json::Json>)
    ensures
        is_list(part) ==> (all_readable::<T>(part) <==> Vec::<T>::from_json(part->Some_0) is Some),
        forall|values: Vec<T>|
            is_list(part) && Vec::<T>::from_json(part->Some_0) == Some(
                #[trigger] values.deep_view(),
            ) ==> reads_all(part, values),
{
    if is_list(part) {
        let items = part->Some_0->Array_0;
        decode_laws::law_items_are_read_one_by_one::<T>(items);
        assert forall|values: Vec<T>|
            Vec::<T>::from_json(part->Some_0) == Some(
                #[trigger] values.deep_view(),
            ) implies reads_all(part, values) by {
            assert forall|i: int| 0 <= i < values@.len() implies T::from_json(items[i]) == Some(
                (#[trigger] values@[i]).deep_view(),
            ) by {
                assert(values.deep_view()[i] == values@[i].deep_view());
                assert(T::from_json(items[i]) == Some(values.deep_view()[i]));
            }
        }
    }
}

/// The tokens of a response: it can be read just where each part is what it has to be, and each
/// field then holds the part of its own name.
pub proof fn law_usage_is_read_by_name(
    v: Value,
    r: Result<OpenAIUsage, String>,
)
    requires
        call_ensures(OpenAIUsage::from_value, (&v,), r),
    ensures
        ({
            let doc = json::value_json(v);
            let prompt_tokens = documents::part(doc, 0, "prompt_tokens"@);
            let completion_tokens = documents::part(doc, 1, "completion_tokens"@);
            let total_tokens = documents::part(doc, 2, "total_tokens"@);
            &&& r is Ok <==> documents::is_record(doc, 3)
                && documents::is_count(prompt_tokens)
                && documents::is_count(completion_tokens)
                && documents::is_count(total_tokens)
            &&& r matches Ok(t) ==> {
                &&& documents::counts(prompt_tokens, t.prompt_tokens)
                &&& documents::counts(completion_tokens, t.completion_tokens)
                &&& documents::counts(total_tokens, t.total_tokens)
            }
        }),
{
}

/// The tokens of a response: what it is seen to hold is what its fields hold, each under its own
/// name.
pub proof fn law_usage_is_seen_by_name(t: OpenAIUsage)
    ensures
        t.deep_view().prompt_tokens == t.prompt_tokens,
        t.deep_view().completion_tokens == t.completion_tokens,
        t.deep_view().total_tokens == t.total_tokens,
{
}

/// The function of a tool call: it can be read just where each part is what it has to be, and each
/// field then holds the part of its own name.
pub proof fn law_function_call_is_read_by_name(
    v: Value,
    r: Result<OpenAIFunctionCall, String>,
)
    requires
        call_ensures(OpenAIFunctionCall::from_value, (&v,), r),
    ensures
        ({
            let doc = json::value_json(v);
            let name = documents::part(doc, 0, "name"@);
            let arguments = documents::part(doc, 1, "arguments"@);
            &&& r is Ok <==> documents::is_record(doc, 2)
                && (documents::absent(name) || documents::is_text(name))
            &&& r matches Ok(t) ==> {
                &&& documents::may_say(name, t.name.deep_view())
                &&& is_arguments(arguments, t.arguments@)
            }
        }),
{
}

/// The function of a tool call: what it is seen to hold is what its fields hold, each under its
/// own name.
pub proof fn law_function_call_is_seen_by_name(t: OpenAIFunctionCall)
    ensures
        t.deep_view().name == t.name.deep_view(),
        t.deep_view().arguments == t.arguments@,
{
}

/// A tool call: it can be read just where each part is what it has to be, and each field then
/// holds the part of its own name.
pub proof fn law_tool_call_is_read_by_name(
    v: Value,
    r: Result<OpenAIToolCall, String>,
)
    requires
        call_ensures(OpenAIToolCall::from_value, (&v,), r),
    ensures
        ({
            let doc = json::value_json(v);
            let id = documents::part(doc, 0, "id"@);
            let kind = documents::part(doc, 1, "type"@);
            let function = documents::part(doc, 2, "function"@);
            &&& r is Ok <==> documents::is_record(doc, 3)
                && documents::is_text(id)
                && documents::is_text(kind)
                && readable::<OpenAIFunctionCall>(function)
            &&& r matches Ok(t) ==> {
                &&& documents::says(id, t.id@)
                &&& documents::says(kind, t.kind@)
                &&& reads(function, t.function)
            }
        }),
{
}

/// A tool call: what it is seen to hold is what its fields hold, each under its own name.
pub proof fn law_tool_call_is_seen_by_name(t: OpenAIToolCall)
    ensures
        t.deep_view().id == t.id@,
        t.deep_view().kind == t.kind@,
        t.deep_view().function == t.function.deep_view(),
{
}

/// The message of a response: it can be read just where each part is what it has to be, and each
/// field then holds the part of its own name.
pub proof fn law_chat_message_is_read_by_name(
    v: Value,
    r: Result<OpenAIChatMessage, String>,
)
    requires
        call_ensures(OpenAIChatMessage::from_value, (&v,), r),
    ensures
        ({
            let doc = json::value_json(v);
            let role = documents::part(doc, 0, "role"@);
            let content = documents::part(doc, 1, "content"@);
            let tool_calls = documents::part(doc, 2, "tool_calls"@);
            let reasoning_content = documents::part(doc, 3, "reasoning_content"@);
            &&& r is Ok <==> documents::is_record(doc, 4)
                && documents::is_text(role)
                && (documents::absent(content) || documents::is_text(content))
                && (documents::absent(tool_calls) || all_readable::<OpenAIToolCall>(tool_calls))
                && (documents::absent(reasoning_content) || documents::is_text(reasoning_content))
            &&& r matches Ok(t) ==> {
                &&& documents::says(role, t.role@)
                &&& documents::absent(content) ==> t.content@.len() == 0
                &&& !documents::absent(content) ==> documents::says(content, t.content@)
                &&& documents::absent(tool_calls) ==> t.tool_calls is None
                &&& !documents::absent(tool_calls)
                    ==> t.tool_calls is Some && reads_all(tool_calls, t.tool_calls->Some_0)
                &&& documents::may_say(reasoning_content, t.reasoning_content.deep_view())
            }
        }),
{
    let doc = json::value_json(v);
    lemma_list::<OpenAIToolCall>(documents::part(doc, 2, "tool_calls"@));
}

/// The message of a response: what it is seen to hold is what its fields hold, each under its own
/// name.
pub proof fn law_chat_message_is_seen_by_name(t: OpenAIChatMessage)
    ensures
        t.deep_view().role == t.role@,
        t.deep_view().content == t.content@,
        t.deep_view().tool_calls == t.tool_calls.deep_view(),
        t.deep_view().reasoning_content == t.reasoning_content.deep_view(),
{
}

/// A choice of a response: it can be read just where each part is what it has to be, and each
/// field then holds the part of its own name.
pub proof fn law_chat_choice_is_read_by_name(
    v: Value,
    r: Result<OpenAIChatChoice, String>,
)
    requires
        call_ensures(OpenAIChatChoice::from_value, (&v,), r),
    ensures
        ({
            let doc = json::value_json(v);
            let index = documents::part(doc, 0, "index"@);
            let message = documents::part(doc, 1, "message"@);
            let finish_reason = documents::part(doc, 2, "finish_reason"@);
            &&& r is Ok <==> documents::is_record(doc, 3)
                && documents::is_count(index)
                && readable::<OpenAIChatMessage>(message)
                && (documents::absent(finish_reason) || documents::is_text(finish_reason))
            &&& r matches Ok(t) ==> {
                &&& documents::counts(index, t.index)
                &&& reads(message, t.message)
                &&& documents::absent(finish_reason) ==> t.finish_reason@.len() == 0
                &&& !documents::absent(finish_reason)
                    ==> documents::says(finish_reason, t.finish_reason@)
            }
        }),
{
}

/// A choice of a response: what it is seen to hold is what its fields hold, each under its own
/// name.
pub proof fn law_chat_choice_is_seen_by_name(t: OpenAIChatChoice)
    ensures
        t.deep_view().index == t.index,
        t.deep_view().message == t.message.deep_view(),
        t.deep_view().finish_reason == t.finish_reason@,
{
}

/// A response: it can be read just where each part is what it has to be, and each field then holds
/// the part of its own name.
pub proof fn law_chat_response_is_read_by_name(
    v: Value,
    r: Result<OpenAIChatResponse, String>,
)
    requires
        call_ensures(OpenAIChatResponse::from_value, (&v,), r),
    ensures
        ({
            let doc = json::value_json(v);
            let id = documents::part(doc, 0, "id"@);
            let object = documents::part(doc, 1, "object"@);
            let model = documents::part(doc, 2, "model"@);
            let choices = documents::part(doc, 3, "choices"@);
            let usage = documents::part(doc, 4, "usage"@);
            &&& r is Ok <==> documents::is_record(doc, 5)
                && documents::is_text(id)
                && documents::is_text(object)
                && documents::is_text(model)
                && (documents::absent(choices) || all_readable::<OpenAIChatChoice>(choices))
                && (documents::absent(usage) || readable::<OpenAIUsage>(usage))
            &&& r matches Ok(t) ==> {
                &&& documents::says(id, t.id@)
                &&& documents::says(object, t.object@)
                &&& documents::says(model, t.model@)
                &&& documents::absent(choices) ==> t.choices@.len() == 0
                &&& !documents::absent(choices) ==> reads_all(choices, t.choices)
                &&& documents::absent(usage)
                    ==> t.usage.prompt_tokens == 0 && t.usage.completion_tokens == 0
                    && t.usage.total_tokens == 0
                &&& !(documents::absent(usage)) ==> reads(usage, t.usage)
            }
        }),
{
    let doc = json::value_json(v);
    lemma_list::<OpenAIChatChoice>(documents::part(doc, 3, "choices"@));
    if r is Ok {
        assert(r->Ok_0.choices.deep_view().len() == r->Ok_0.choices@.len());
    }
}

/// A response: what it is seen to hold is what its fields hold, each under its own name.
pub proof fn law_chat_response_is_seen_by_name(t: OpenAIChatResponse)
    ensures
        t.deep_view().id == t.id@,
        t.deep_view().object == t.object@,
        t.deep_view().model == t.model@,
        t.deep_view().choices == t.choices.deep_view(),
        t.deep_view().usage == t.usage.deep_view(),
{
}

/// What prompt tokens are made of: it can be read just where each part is what it has to be, and
/// each field then holds the part of its own name.
pub proof fn law_stream_usage_prompt_details_is_read_by_name(
    v: Value,
    r: Result<OpenAIStreamUsagePromptDetails, String>,
)
    requires
        call_ensures(OpenAIStreamUsagePromptDetails::from_value, (&v,), r),
    ensures
        ({
            let doc = json::value_json(v);
            let cached_tokens = documents::part(doc, 0, "cached_tokens"@);
            &&& r is Ok <==> documents::is_record(doc, 1)
                && (documents::absent(cached_tokens) || documents::is_count(cached_tokens))
            &&& r matches Ok(t) ==> {
                &&& documents::may_count(cached_tokens, t.cached_tokens)
            }
        }),
{
}

/// What prompt tokens are made of: what it is seen to hold is what its fields hold, each under its
/// own name.
pub proof fn law_stream_usage_prompt_details_is_seen_by_name(t: OpenAIStreamUsagePromptDetails)
    ensures
        t.deep_view().cached_tokens == t.cached_tokens,
{
}

/// What completion tokens are made of: it can be read just where each part is what it has to be,
/// and each field then holds the part of its own name.
pub proof fn law_stream_usage_completion_details_is_read_by_name(
    v: Value,
    r: Result<OpenAIStreamUsageCompletionDetails, String>,
)
    requires
        call_ensures(OpenAIStreamUsageCompletionDetails::from_value, (&v,), r),
    ensures
        ({
            let doc = json::value_json(v);
            let reasoning_tokens = documents::part(doc, 0, "reasoning_tokens"@);
            &&& r is Ok <==> documents::is_record(doc, 1)
                && (documents::absent(reasoning_tokens) || documents::is_count(reasoning_tokens))
            &&& r matches Ok(t) ==> {
                &&& documents::may_count(reasoning_tokens, t.reasoning_tokens)
            }
        }),
{
}

/// What completion tokens are made of: what it is seen to hold is what its fields hold, each under
/// its own name.
pub proof fn law_stream_usage_completion_details_is_seen_by_name(
    t: OpenAIStreamUsageCompletionDetails,
)
    ensures
        t.deep_view().reasoning_tokens == t.reasoning_tokens,
{
}

/// The usage on a frame: it can be read just where each part is what it has to be, and each field
/// then holds the part of its own name.
pub proof fn law_stream_usage_is_read_by_name(
    v: Value,
    r: Result<OpenAIStreamUsage, String>,
)
    requires
        call_ensures(OpenAIStreamUsage::from_value, (&v,), r),
    ensures
        ({
            let doc = json::value_json(v);
            let prompt_tokens = documents::part(doc, 0, "prompt_tokens"@);
            let completion_tokens = documents::part(doc, 1, "completion_tokens"@);
            let total_tokens = documents::part(doc, 2, "total_tokens"@);
            let prompt_tokens_details = documents::part(doc, 3, "prompt_tokens_details"@);
            let completion_tokens_details = documents::part(doc, 4, "completion_tokens_details"@);
            &&& r is Ok <==> documents::is_record(doc, 5)
                && (documents::absent(prompt_tokens) || documents::is_count(prompt_tokens))
                && (documents::absent(completion_tokens) || documents::is_count(completion_tokens))
                && (documents::absent(total_tokens) || documents::is_count(total_tokens))
                && (documents::absent(prompt_tokens_details)
                    || readable::<OpenAIStreamUsagePromptDetails>(prompt_tokens_details))
                && (documents::absent(completion_tokens_details)
                    || readable::<OpenAIStreamUsageCompletionDetails>(completion_tokens_details))
            &&& r matches Ok(t) ==> {
                &&& documents::may_count(prompt_tokens, t.prompt_tokens)
                &&& documents::may_count(completion_tokens, t.completion_tokens)
                &&& documents::may_count(total_tokens, t.total_tokens)
                &&& documents::absent(prompt_tokens_details) ==> t.prompt_tokens_details is None
                &&& !documents::absent(prompt_tokens_details)
                    ==> t.prompt_tokens_details is Some
                    && reads(prompt_tokens_details, t.prompt_tokens_details->Some_0)
                &&& documents::absent(completion_tokens_details)
                    ==> t.completion_tokens_details is None
                &&& !documents::absent(completion_tokens_details)
                    ==> t.completion_tokens_details is Some
                    && reads(completion_tokens_details, t.completion_tokens_details->Some_0)
            }
        }),
{
}

/// The usage on a frame: what it is seen to hold is what its fields hold, each under its own name.
pub proof fn law_stream_usage_is_seen_by_name(t: OpenAIStreamUsage)
    ensures
        t.deep_view().prompt_tokens == t.prompt_tokens,
        t.deep_view().completion_tokens == t.completion_tokens,
        t.deep_view().total_tokens == t.total_tokens,
        t.deep_view().prompt_tokens_details == t.prompt_tokens_details.deep_view(),
        t.deep_view().completion_tokens_details == t.completion_tokens_details.deep_view(),
{
}

/// A piece of a tool call: it can be read just where each part is what it has to be, and each
/// field then holds the part of its own name.
pub proof fn law_stream_tool_call_is_read_by_name(
    v: Value,
    r: Result<OpenAIStreamToolCall, String>,
)
    requires
        call_ensures(OpenAIStreamToolCall::from_value, (&v,), r),
    ensures
        ({
            let doc = json::value_json(v);
            let index = documents::part(doc, 0, "index"@);
            let id = documents::part(doc, 1, "id"@);
            let kind = documents::part(doc, 2, "type"@);
            let function = documents::part(doc, 3, "function"@);
            &&& r is Ok <==> documents::is_record(doc, 4)
                && (documents::absent(index) || documents::is_count(index))
                && (documents::absent(id) || documents::is_text(id))
                && (documents::absent(kind) || documents::is_text(kind))
                && (function is None || readable::<OpenAIFunctionCall>(function))
            &&& r matches Ok(t) ==> {
                &&& documents::may_count(index, t.index)
                &&& documents::may_say(id, t.id.deep_view())
                &&& documents::may_say(kind, t.kind.deep_view())
                &&& function is None ==> t.function.name is None && t.function.arguments@.len() == 0
                &&& !(function is None) ==> reads(function, t.function)
            }
        }),
{
}

/// A piece of a tool call: what it is seen to hold is what its fields hold, each under its own
/// name.
pub proof fn law_stream_tool_call_is_seen_by_name(t: OpenAIStreamToolCall)
    ensures
        t.deep_view().index == t.index,
        t.deep_view().id == t.id.deep_view(),
        t.deep_view().kind == t.kind.deep_view(),
        t.deep_view().function == t.function.deep_view(),
{
}

/// What a frame adds: it can be read just where each part is what it has to be, and each field
/// then holds the part of its own name.
pub proof fn law_stream_delta_is_read_by_name(
    v: Value,
    r: Result<OpenAIStreamDelta, String>,
)
    requires
        call_ensures(OpenAIStreamDelta::from_value, (&v,), r),
    ensures
        ({
            let doc = json::value_json(v);
            let role = documents::part(doc, 0, "role"@);
            let content = documents::part(doc, 1, "content"@);
            let reasoning_content = documents::part(doc, 2, "reasoning_content"@);
            let tool_calls = documents::part(doc, 3, "tool_calls"@);
            &&& r is Ok <==> documents::is_record(doc, 4)
                && (documents::absent(role) || documents::is_text(role))
                && (documents::absent(content) || documents::is_text(content))
                && (documents::absent(reasoning_content) || documents::is_text(reasoning_content))
                && (documents::absent(tool_calls)
                    || all_readable::<OpenAIStreamToolCall>(tool_calls))
            &&& r matches Ok(t) ==> {
                &&& documents::may_say(role, t.role.deep_view())
                &&& documents::may_say(content, t.content.deep_view())
                &&& documents::may_say(reasoning_content, t.reasoning_content.deep_view())
                &&& documents::absent(tool_calls) ==> t.tool_calls is None
                &&& !documents::absent(tool_calls)
                    ==> t.tool_calls is Some && reads_all(tool_calls, t.tool_calls->Some_0)
            }
        }),
{
    let doc = json::value_json(v);
    lemma_list::<OpenAIStreamToolCall>(documents::part(doc, 3, "tool_calls"@));
}

/// What a frame adds: what it is seen to hold is what its fields hold, each under its own name.
pub proof fn law_stream_delta_is_seen_by_name(t: OpenAIStreamDelta)
    ensures
        t.deep_view().role == t.role.deep_view(),
        t.deep_view().content == t.content.deep_view(),
        t.deep_view().reasoning_content == t.reasoning_content.deep_view(),
        t.deep_view().tool_calls == t.tool_calls.deep_view(),
{
}

/// A choice of a frame: it can be read just where each part is what it has to be, and each field
/// then holds the part of its own name.
pub proof fn law_stream_choice_is_read_by_name(
    v: Value,
    r: Result<OpenAIStreamChoice, String>,
)
    requires
        call_ensures(OpenAIStreamChoice::from_value, (&v,), r),
    ensures
        ({
            let doc = json::value_json(v);
            let index = documents::part(doc, 0, "index"@);
            let delta = documents::part(doc, 1, "delta"@);
            let finish_reason = documents::part(doc, 2, "finish_reason"@);
            &&& r is Ok <==> documents::is_record(doc, 3)
                && (index is None || documents::is_count(index))
                && (delta is None || readable::<OpenAIStreamDelta>(delta))
                && (documents::absent(finish_reason) || documents::is_text(finish_reason))
            &&& r matches Ok(t) ==> {
                &&& index is None ==> t.index == 0
                &&& index is Some ==> documents::counts(index, t.index)
                &&& delta is None
                    ==> t.delta.role is None && t.delta.content is None
                    && t.delta.reasoning_content is None && t.delta.tool_calls is None
                &&& !(delta is None) ==> reads(delta, t.delta)
                &&& documents::may_say(finish_reason, t.finish_reason.deep_view())
            }
        }),
{
}

/// A choice of a frame: what it is seen to hold is what its fields hold, each under its own name.
pub proof fn law_stream_choice_is_seen_by_name(t: OpenAIStreamChoice)
    ensures
        t.deep_view().index == t.index,
        t.deep_view().delta == t.delta.deep_view(),
        t.deep_view().finish_reason == t.finish_reason.deep_view(),
{
}

/// A frame: it can be read just where each part is what it has to be, and each field then holds
/// the part of its own name.
pub proof fn law_stream_chunk_is_read_by_name(
    v: Value,
    r: Result<OpenAIStreamChunk, String>,
)
    requires
        call_ensures(OpenAIStreamChunk::from_value, (&v,), r),
    ensures
        ({
            let doc = json::value_json(v);
            let id = documents::part(doc, 0, "id"@);
            let object = documents::part(doc, 1, "object"@);
            let choices = documents::part(doc, 2, "choices"@);
            let usage = documents::part(doc, 3, "usage"@);
            &&& r is Ok <==> documents::is_record(doc, 4)
                && (id is None || documents::is_text(id))
                && (object is None || documents::is_text(object))
                && (is_list(choices) ==> all_readable::<OpenAIStreamChoice>(choices))
                && (documents::absent(usage) || readable::<OpenAIStreamUsage>(usage))
            &&& r matches Ok(t) ==> {
                &&& id is None ==> t.id@.len() == 0
                &&& id is Some ==> documents::says(id, t.id@)
                &&& object is None ==> t.object@.len() == 0
                &&& object is Some ==> documents::says(object, t.object@)
                &&& !is_list(choices) ==> t.choices@.len() == 0
                &&& is_list(choices) ==> reads_all(choices, t.choices)
                &&& documents::absent(usage) ==> t.usage is None
                &&& !documents::absent(usage) ==> t.usage is Some && reads(usage, t.usage->Some_0)
            }
        }),
{
    let doc = json::value_json(v);
    lemma_list::<OpenAIStreamChoice>(documents::part(doc, 2, "choices"@));
    if r is Ok {
        assert(r->Ok_0.choices.deep_view().len() == r->Ok_0.choices@.len());
    }
}

/// A frame: what it is seen to hold is what its fields hold, each under its own name.
pub proof fn law_stream_chunk_is_seen_by_name(t: OpenAIStreamChunk)
    ensures
        t.deep_view().id == t.id@,
        t.deep_view().object == t.object@,
        t.deep_view().choices == t.choices.deep_view(),
        t.deep_view().usage == t.usage.deep_view(),
{
}

/// A text that may be `null`, a usage that may be `null` and arguments are read as what they stand
/// for.
pub proof fn law_lenient_parts_are_read(
    v: Value,
    said: Result<String, String>,
    usage: Result<OpenAIUsage, String>,
    arguments: String,
)
    requires
        call_ensures(de_string_or_empty, (&v,), said),
        call_ensures(de_usage_or_default, (&v,), usage),
        call_ensures(de_arguments_as_string, (&v,), arguments),
    ensures
        ({
            let part = Some(json::value_json(v));
            &&& said is Ok <==> documents::absent(part) || documents::is_text(part)
            &&& said matches Ok(s) ==> (documents::absent(part) ==> s@.len() == 0) && (
            !documents::absent(part) ==> documents::says(part, s@))
            &&& usage is Ok <==> documents::absent(part) || readable::<OpenAIUsage>(part)
            &&& usage matches Ok(u) ==> (documents::absent(part) ==> u.prompt_tokens == 0
                && u.completion_tokens == 0 && u.total_tokens == 0) && (!documents::absent(part)
                ==> reads(part, u))
            &&& is_arguments(part, arguments@)
        }),
{
}

/// The choices of a response may be `null`, and are else an array of choices; those of a frame are
/// none where they are no array.
pub proof fn law_lenient_choices_are_read(
    v: Value,
    choices: Result<Vec<OpenAIChatChoice>, String>,
    framed: Result<Vec<OpenAIStreamChoice>, String>,
)
    requires
        call_ensures(de_choices_or_empty, (&v,), choices),
        call_ensures(de_choices_lenient, (&v,), framed),
    ensures
        ({
            let part = Some(json::value_json(v));
            &&& choices is Ok <==> documents::absent(part) || all_readable::<OpenAIChatChoice>(part)
            &&& choices matches Ok(c) ==> (documents::absent(part) ==> c@.len() == 0) && (
            !documents::absent(part) ==> reads_all(part, c))
            &&& framed is Ok <==> (is_list(part) ==> all_readable::<OpenAIStreamChoice>(part))
            &&& framed matches Ok(c) ==> (!is_list(part) ==> c@.len() == 0) && (is_list(part)
                ==> reads_all(part, c))
        }),
{
    lemma_list::<OpenAIChatChoice>(Some(json::value_json(v)));
    lemma_list::<OpenAIStreamChoice>(Some(json::value_json(v)));
    if choices is Ok {
        assert(choices->Ok_0.deep_view().len() == choices->Ok_0@.len());
    }
    if framed is Ok {
        assert(framed->Ok_0.deep_view().len() == framed->Ok_0@.len());
    }
}

/// A usage, a function and a delta are empty unless somebody fills them.
pub proof fn law_parts_are_empty_at_first(
    usage: OpenAIUsage,
    function: OpenAIFunctionCall,
    delta: OpenAIStreamDelta,
)
    requires
        call_ensures(<OpenAIUsage as Default>::default, (), usage),
        call_ensures(<OpenAIFunctionCall as Default>::default, (), function),
        call_ensures(<OpenAIStreamDelta as Default>::default, (), delta),
    ensures
        usage.prompt_tokens == 0,
        usage.completion_tokens == 0,
        usage.total_tokens == 0,
        function.name is None,
        function.arguments@.len() == 0,
        delta.role is None,
        delta.content is None,
        delta.reasoning_content is None,
        delta.tool_calls is None,
{
}

} // verus!
