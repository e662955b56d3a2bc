//! What holds of every record that is read straight from its text: each field holds what stands under
//! its own name.
use crate::models::wire_openai::OpenAIChatChoice;
use crate::models::wire_openai::OpenAIChatMessage;
use crate::models::wire_openai::OpenAIChatResponse;
use crate::models::wire_openai::OpenAIFunctionCall;
use crate::models::wire_openai::OpenAIToolCall;
use crate::models::wire_openai::OpenAIUsage;
use crate::models::wire_record_laws;
use crate::shared::json;
use crate::shared::raw;
use crate::shared::raw::FromText;
use crate::shared::raw_laws;
use vstd::prelude::*;

verus! {

/// A text stands for the part.
pub open spec fn given(part: Option<Option<Seq<char>>>) -> bool {
    part is Some && part->Some_0 is Some
}

/// The text that stands for the part.
pub open spec fn text_in(part: Option<Option<Seq<char>>>) -> Seq<char> {
    part->Some_0->Some_0
}

/// Nothing stands for the part.
pub open spec fn missing(part: Option<Option<Seq<char>>>) -> bool {
    part is Some && part->Some_0 is None
}

/// Nothing stands for the part, or `null` does.
pub open spec fn nothing(part: Option<Option<Seq<char>>>) -> bool {
    missing(part) || (given(part) && raw::is_null(text_in(part)))
}

/// The part is a text.
pub open spec fn is_text(part: Option<Option<Seq<char>>>) -> bool {
    given(part) && json::json_parse(text_in(part)) is Ok && json::json_parse(text_in(part))->Ok_0 is Str
}

/// The part is that text.
pub open spec fn says(part: Option<Option<Seq<char>>>, said: Seq<char>) -> bool {
    given(part) && json::json_parse(text_in(part)) == Ok::<json::Json, Seq<char>>(
        json::Json::Str(said),
    )
}

/// The part is an integer of 64 bits.
pub open spec fn is_count(part: Option<Option<Seq<char>>>) -> bool {
    &&& given(part)
    &&& json::json_parse(text_in(part)) is Ok
    &&& json::json_parse(text_in(part))->Ok_0 is Number
    &&& json::number_i64(json::json_parse(text_in(part))->Ok_0->Number_0) is Some
}

/// The part is that integer.
pub open spec fn counts(part: Option<Option<Seq<char>>>, n: i64) -> bool {
    is_count(part) && json::number_i64(json::json_parse(text_in(part))->Ok_0->Number_0) == Some(n)
}

/// The part can be read as such a record.
pub open spec fn readable<T: FromText>(part: Option<Option<Seq<char>>>) -> bool {
    given(part) && T::from_text(text_in(part)) is Some
}

/// The record is what is read from the part.
pub open spec fn reads<T: FromText>(part: Option<Option<Seq<char>>>, value: T) -> bool {
    given(part) && T::from_text(text_in(part)) == Some(value.deep_view())
}

/// The items of the part.
pub open spec fn items_in(part: Option<Option<Seq<char>>>) -> Seq<Seq<char>> {
    raw::shape_of(text_in(part))->List_0
}

/// The part is an array, and each of its items can be read as such a record.
pub open spec fn all_readable<T: FromText>(part: Option<Option<Seq<char>>>) -> bool {
    &&& given(part)
    &&& raw::shape_of(text_in(part)) is List
    &&& forall|i: int|
        0 <= i < items_in(part).len() ==> T::from_text(#[trigger] items_in(part)[i]) is Some
}

/// The part is an array, and the records are what is read from its items, one for one.
pub open spec fn reads_all<T: FromText>(part: Option<Option<Seq<char>>>, values: Vec<T>) -> bool {
    &&& given(part)
    &&& raw::shape_of(text_in(part)) is List
    &&& items_in(part).len() == values@.len()
    &&& forall|i: int|
        0 <= i < values@.len() ==> T::from_text(items_in(part)[i]) == Some(
            (#[trigger] values@[i]).deep_view(),
        )
}

/// The part holds a document that the JSON parser can read as deep as it stands in a response.
pub open spec fn holds_document(part: Option<Option<Seq<char>>>) -> bool {
    given(part) && raw::inner_document(text_in(part), 7) is Some
}

/// The text is an object, or an array with at most so many items.
pub open spec fn is_record(shape: raw::Shape, count: int) -> bool {
    shape is Record || (shape is List && shape->List_0.len() <= count)
}

proof fn lemma_list<T: FromText>(part: Option<Option<Seq<char>>>)
    ensures
        given(part) && raw::shape_of(text_in(part)) is List ==> (all_readable::<T>(part)
            <==> Vec::<T>::from_text(text_in(part)) is Some),
        forall|values: Vec<T>|
            given(part) && Vec::<T>::from_text(text_in(part)) == Some(
                #[trigger] values.deep_view(),
            ) ==> reads_all(part, values),
{
    if given(part) && raw::shape_of(text_in(part)) is List {
        let items = items_in(part);
        raw_laws::law_items_are_read_one_by_one::<T>(items);
        assert forall|values: Vec<T>|
            Vec::<T>::from_text(text_in(part)) == Some(
                #[trigger] values.deep_view(),
            ) implies reads_all(part, values) by {
            assert forall|i: int| 0 <= i < values@.len() implies T::from_text(items[i]) == Some(
                (#[trigger] values@[i]).deep_view(),
            ) by {
                assert(values.deep_view()[i] == values@[i].deep_view());
                assert(T::from_text(items[i]) == Some(values.deep_view()[i]));
            }
        }
    }
}

/// The tokens of a response: it can be read from a text just where each part is what it has to be,
/// and each field then holds the part of its own name.
pub proof fn law_usage_is_read_from_text(
    text: &str,
    r: Result<OpenAIUsage, String>,
)
    requires
        call_ensures(OpenAIUsage::read_text, (text,), r),
    ensures
        ({
            let shape = raw::shape_of(text@);
            let prompt_tokens = raw::member_text(shape, 0, "prompt_tokens"@);
            let completion_tokens = raw::member_text(shape, 1, "completion_tokens"@);
            let total_tokens = raw::member_text(shape, 2, "total_tokens"@);
            &&& r is Ok <==> is_record(shape, 3)
                && is_count(prompt_tokens)
                && is_count(completion_tokens)
                && is_count(total_tokens)
            &&& r matches Ok(t) ==> {
                &&& counts(prompt_tokens, t.prompt_tokens)
                &&& counts(completion_tokens, t.completion_tokens)
                &&& counts(total_tokens, t.total_tokens)
            }
        }),
{
}

/// The function of a tool call: it can be read from a text just where each part is what it has to
/// be, and each field then holds the part of its own name.
pub proof fn law_function_call_is_read_from_text(
    text: &str,
    r: Result<OpenAIFunctionCall, String>,
)
    requires
        call_ensures(OpenAIFunctionCall::read_text, (text,), r),
    ensures
        ({
            let shape = raw::shape_of(text@);
            let name = raw::member_text(shape, 0, "name"@);
            let arguments = raw::member_text(shape, 1, "arguments"@);
            &&& r is Ok <==> is_record(shape, 2)
                && (nothing(name) || is_text(name))
                && (missing(arguments) || holds_document(arguments))
            &&& r matches Ok(t) ==> {
                &&& nothing(name) ==> t.name is None
                &&& !nothing(name) ==> t.name is Some && says(name, t.name->Some_0@)
                &&& missing(arguments) ==> t.arguments@.len() == 0
                &&& !missing(arguments)
                    ==> wire_record_laws::is_arguments(raw::inner_document(text_in(arguments), 7), t.arguments@)
            }
        }),
{
}

/// A tool call: it can be read from a text just where each part is what it has to be, and each
/// field then holds the part of its own name.
pub proof fn law_tool_call_is_read_from_text(
    text: &str,
    r: Result<OpenAIToolCall, String>,
)
    requires
        call_ensures(OpenAIToolCall::read_text, (text,), r),
    ensures
        ({
            let shape = raw::shape_of(text@);
            let id = raw::member_text(shape, 0, "id"@);
            let kind = raw::member_text(shape, 1, "type"@);
            let function = raw::member_text(shape, 2, "function"@);
            &&& r is Ok <==> is_record(shape, 3)
                && is_text(id)
                && is_text(kind)
                && readable::<OpenAIFunctionCall>(function)
            &&& r matches Ok(t) ==> {
                &&& says(id, t.id@)
                &&& says(kind, t.kind@)
                &&& reads(function, t.function)
            }
        }),
{
}

/// The message of a response: it can be read from a text just where each part is what it has to
/// be, and each field then holds the part of its own name.
pub proof fn law_chat_message_is_read_from_text(
    text: &str,
    r: Result<OpenAIChatMessage, String>,
)
    requires
        call_ensures(OpenAIChatMessage::read_text, (text,), r),
    ensures
        ({
            let shape = raw::shape_of(text@);
            let role = raw::member_text(shape, 0, "role"@);
            let content = raw::member_text(shape, 1, "content"@);
            let tool_calls = raw::member_text(shape, 2, "tool_calls"@);
            let reasoning_content = raw::member_text(shape, 3, "reasoning_content"@);
            &&& r is Ok <==> is_record(shape, 4)
                && is_text(role)
                && (nothing(content) || is_text(content))
                && (nothing(tool_calls) || all_readable::<OpenAIToolCall>(tool_calls))
                && (nothing(reasoning_content) || is_text(reasoning_content))
            &&& r matches Ok(t) ==> {
                &&& says(role, t.role@)
                &&& nothing(content) ==> t.content@.len() == 0
                &&& !nothing(content) ==> says(content, t.content@)
                &&& nothing(tool_calls) ==> t.tool_calls is None
                &&& !nothing(tool_calls)
                    ==> t.tool_calls is Some && reads_all(tool_calls, t.tool_calls->Some_0)
                &&& nothing(reasoning_content) ==> t.reasoning_content is None
                &&& !nothing(reasoning_content)
                    ==> t.reasoning_content is Some
                    && says(reasoning_content, t.reasoning_content->Some_0@)
            }
        }),
{
    let shape = raw::shape_of(text@);
    lemma_list::<OpenAIToolCall>(raw::member_text(shape, 2, "tool_calls"@));
}

/// A choice of a response: it can be read from a text just where each part is what it has to be,
/// and each field then holds the part of its own name.
pub proof fn law_chat_choice_is_read_from_text(
    text: &str,
    r: Result<OpenAIChatChoice, String>,
)
    requires
        call_ensures(OpenAIChatChoice::read_text, (text,), r),
    ensures
        ({
            let shape = raw::shape_of(text@);
            let index = raw::member_text(shape, 0, "index"@);
            let message = raw::member_text(shape, 1, "message"@);
            let finish_reason = raw::member_text(shape, 2, "finish_reason"@);
            &&& r is Ok <==> is_record(shape, 3)
                && is_count(index)
                && readable::<OpenAIChatMessage>(message)
                && (nothing(finish_reason) || is_text(finish_reason))
            &&& r matches Ok(t) ==> {
                &&& counts(index, t.index)
                &&& reads(message, t.message)
                &&& nothing(finish_reason) ==> t.finish_reason@.len() == 0
                &&& !nothing(finish_reason) ==> says(finish_reason, t.finish_reason@)
            }
        }),
{
}

/// A response: it can be read from a text just where each part is what it has to be, and each
/// field then holds the part of its own name.
pub proof fn law_chat_response_is_read_from_text(
    text: &str,
    r: Result<OpenAIChatResponse, String>,
)
    requires
        call_ensures(OpenAIChatResponse::read_text, (text,), r),
    ensures
        ({
            let shape = raw::shape_of(text@);
            let id = raw::member_text(shape, 0, "id"@);
            let object = raw::member_text(shape, 1, "object"@);
            let model = raw::member_text(shape, 2, "model"@);
            let choices = raw::member_text(shape, 3, "choices"@);
            let usage = raw::member_text(shape, 4, "usage"@);
            &&& r is Ok <==> is_record(shape, 5)
                && is_text(id)
                && is_text(object)
                && is_text(model)
                && (nothing(choices) || all_readable::<OpenAIChatChoice>(choices))
                && (nothing(usage) || readable::<OpenAIUsage>(usage))
            &&& r matches Ok(t) ==> {
                &&& says(id, t.id@)
                &&& says(object, t.object@)
                &&& says(model, t.model@)
                &&& nothing(choices) ==> t.choices@.len() == 0
                &&& !nothing(choices) ==> reads_all(choices, t.choices)
                &&& nothing(usage)
                    ==> t.usage.prompt_tokens == 0 && t.usage.completion_tokens == 0
                    && t.usage.total_tokens == 0
                &&& !nothing(usage) ==> reads(usage, t.usage)
            }
        }),
{
    let shape = raw::shape_of(text@);
    lemma_list::<OpenAIChatChoice>(raw::member_text(shape, 3, "choices"@));
    if r is Ok {
        assert(r->Ok_0.choices.deep_view().len() == r->Ok_0.choices@.len());
    }
}

} // verus!
