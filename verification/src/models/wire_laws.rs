//! What holds of everything that is read from the wire.
use crate::models::wire_openai;
use crate::models::wire_openai::OpenAIChatChoice;
use crate::models::wire_openai::OpenAIChatMessage;
use crate::models::wire_openai::OpenAIChatResponse;
use crate::models::wire_openai::OpenAIStreamChunk;
use crate::models::wire_openai::OpenAIStreamToolCall;
use crate::shared::decode::FromJson;
use crate::shared::json;
use crate::shared::raw;
use crate::shared::raw::FromText;
use vstd::prelude::*;

verus! {

/// An object with these members, and `null` under that name.
pub open spec fn with_null(
    members: Map<Seq<char>, json::Json>,
    name: Seq<char>,
) -> json::Json {
    json::Json::Object(members.insert(name, json::Json::Null))
}

/// A response without choices reads as one whose choices are `null`.
pub proof fn law_missing_choices_read_as_null(members: Map<Seq<char>, json::Json>)
    requires
        !members.dom().contains("choices"@),
    ensures
        OpenAIChatResponse::from_json(json::Json::Object(members))
            == OpenAIChatResponse::from_json(with_null(members, "choices"@)),
{
    reveal_strlit("choices");
    reveal_strlit("id");
    reveal_strlit("object");
    reveal_strlit("model");
    reveal_strlit("usage");
    assert("choices"@.len() == 7);
}

/// A response without usage reads as one whose usage is `null`.
pub proof fn law_missing_usage_reads_as_null(members: Map<Seq<char>, json::Json>)
    requires
        !members.dom().contains("usage"@),
    ensures
        OpenAIChatResponse::from_json(json::Json::Object(members))
            == OpenAIChatResponse::from_json(with_null(members, "usage"@)),
{
    reveal_strlit("choices");
    reveal_strlit("id");
    reveal_strlit("object");
    reveal_strlit("model");
    reveal_strlit("usage");
    assert("usage"@.len() == 5);
    assert("model"@.len() == 5 && "model"@[0] == 'm' && "usage"@[0] == 'u');
}

/// A message without content reads as one whose content is `null`.
pub proof fn law_missing_content_reads_as_null(members: Map<Seq<char>, json::Json>)
    requires
        !members.dom().contains("content"@),
    ensures
        OpenAIChatMessage::from_json(json::Json::Object(members))
            == OpenAIChatMessage::from_json(with_null(members, "content"@)),
{
    reveal_strlit("content");
    reveal_strlit("role");
    reveal_strlit("tool_calls");
    reveal_strlit("reasoning_content");
    assert("content"@.len() == 7);
}

/// A choice without a finish reason reads as one whose finish reason is `null`.
pub proof fn law_missing_finish_reason_reads_as_null(members: Map<Seq<char>, json::Json>)
    requires
        !members.dom().contains("finish_reason"@),
    ensures
        OpenAIChatChoice::from_json(json::Json::Object(members))
            == OpenAIChatChoice::from_json(with_null(members, "finish_reason"@)),
{
    reveal_strlit("finish_reason");
    reveal_strlit("index");
    reveal_strlit("message");
    assert("finish_reason"@.len() == 13);
}

/// A response whose choices are neither `null` nor an array cannot be read.
pub proof fn law_strange_choices_are_an_error(members: Map<Seq<char>, json::Json>)
    requires
        members.dom().contains("choices"@),
        !(members["choices"@] is Null),
        !(members["choices"@] is Array),
    ensures
        OpenAIChatResponse::from_json(json::Json::Object(members)) is None,
{
}

/// A frame whose choices are no array reads as one without choices: whatever stands there, the rest
/// of the frame is read.
pub proof fn law_strange_choices_of_a_frame_are_none(
    members: Map<Seq<char>, json::Json>,
    choices: json::Json,
)
    requires
        !members.dom().contains("choices"@),
        !(choices is Array),
    ensures
        OpenAIStreamChunk::from_json(json::Json::Object(members)) == OpenAIStreamChunk::from_json(
            json::Json::Object(members.insert("choices"@, choices)),
        ),
        OpenAIStreamChunk::from_json(json::Json::Object(members)) matches Some(chunk)
            ==> chunk.choices.len() == 0,
{
    reveal_strlit("choices");
    reveal_strlit("id");
    reveal_strlit("object");
    reveal_strlit("usage");
    assert("choices"@.len() == 7);
}

/// A piece of a tool call without an index is not one with the index 0.
pub proof fn law_missing_index_is_not_zero(members: Map<Seq<char>, json::Json>)
    requires
        OpenAIStreamToolCall::from_json(json::Json::Object(members)) is Some,
    ensures
        OpenAIStreamToolCall::from_json(json::Json::Object(members))->Some_0.index is None <==> (
        !members.dom().contains("index"@) || members["index"@] is Null),
{
}

/// `with` is written as `without` is, with one member more.
pub open spec fn adds_member(
    with: Seq<char>,
    without: Seq<char>,
    name: Seq<char>,
    value: Seq<char>,
) -> bool {
    match raw::shape_of(without) {
        raw::Shape::Record(entries) => raw::shape_of(with) == raw::Shape::Record(
            entries.push((name, value)),
        ),
        _ => false,
    }
}

/// A text is an object that does not have the member.
pub open spec fn lacks_member(text: Seq<char>, name: Seq<char>) -> bool {
    match raw::shape_of(text) {
        raw::Shape::Record(entries) => raw::times(entries, name) == 0,
        _ => false,
    }
}

/// The names of the members that a response has.
pub open spec fn response_members() -> Seq<Seq<char>> {
    seq!["id"@, "object"@, "model"@, "choices"@, "usage"@]
}

proof fn lemma_pushed(entries: Seq<raw::Entry>, name: Seq<char>, value: Seq<char>, other: Seq<char>)
    ensures
        raw::times(entries.push((name, value)), other) == raw::times(entries, other) + if name
            == other {
            1nat
        } else {
            0nat
        },
        raw::last_text(entries.push((name, value)), other) == (if name == other {
            Some(value)
        } else {
            raw::last_text(entries, other)
        }),
{
    assert(entries.push((name, value)).drop_last() =~= entries);
}

proof fn lemma_never_written(entries: Seq<raw::Entry>, name: Seq<char>)
    requires
        raw::times(entries, name) == 0,
    ensures
        raw::last_text(entries, name) is None,
    decreases entries.len(),
{
    if entries.len() > 0 {
        lemma_never_written(entries.drop_last(), name);
    }
}

proof fn lemma_member_aside(
    with: Seq<char>,
    without: Seq<char>,
    name: Seq<char>,
    value: Seq<char>,
    place: nat,
    other: Seq<char>,
)
    requires
        adds_member(with, without, name, value),
    ensures
        name != other ==> raw::member_text(raw::shape_of(with), place, other) == raw::member_text(
            raw::shape_of(without),
            place,
            other,
        ),
        lacks_member(without, name) ==> raw::member_text(raw::shape_of(with), place, name) == Some(
            Some(value),
        ) && raw::member_text(raw::shape_of(without), place, name) == Some(None::<Seq<char>>),
        !lacks_member(without, name) ==> raw::member_text(raw::shape_of(with), place, name) is None,
{
    if let raw::Shape::Record(entries) = raw::shape_of(without) {
        lemma_pushed(entries, name, value, other);
        lemma_pushed(entries, name, value, name);
        if raw::times(entries, name) == 0 {
            lemma_never_written(entries, name);
        }
    }
}

proof fn lemma_response_members_differ()
    ensures
        response_members().no_duplicates(),
{
    reveal_strlit("id");
    reveal_strlit("object");
    reveal_strlit("model");
    reveal_strlit("choices");
    reveal_strlit("usage");
    assert("id"@.len() == 2);
    assert("object"@.len() == 6);
    assert("choices"@.len() == 7);
    assert("model"@.len() == 5 && "model"@[0] == 'm');
    assert("usage"@.len() == 5 && "usage"@[0] == 'u');
}

/// A member that a response does not know makes no difference, whatever its value is written like.
pub proof fn law_unknown_members_are_skipped(
    with: Seq<char>,
    without: Seq<char>,
    name: Seq<char>,
    value: Seq<char>,
)
    requires
        adds_member(with, without, name, value),
        !response_members().contains(name),
    ensures
        OpenAIChatResponse::from_text(with) == OpenAIChatResponse::from_text(without),
{
    let known = response_members();
    assert(known[0] != name && known[1] != name && known[2] != name && known[3] != name
        && known[4] != name);
    lemma_member_aside(with, without, name, value, 0, "id"@);
    lemma_member_aside(with, without, name, value, 1, "object"@);
    lemma_member_aside(with, without, name, value, 2, "model"@);
    lemma_member_aside(with, without, name, value, 3, "choices"@);
    lemma_member_aside(with, without, name, value, 4, "usage"@);
}

/// A response that has one of its members twice cannot be read.
pub proof fn law_repeated_members_are_an_error(
    with: Seq<char>,
    without: Seq<char>,
    name: Seq<char>,
    value: Seq<char>,
)
    requires
        adds_member(with, without, name, value),
        response_members().contains(name),
        !lacks_member(without, name),
    ensures
        OpenAIChatResponse::from_text(with) is None,
{
    lemma_member_aside(with, without, name, value, 0, name);
    lemma_member_aside(with, without, name, value, 1, name);
    lemma_member_aside(with, without, name, value, 2, name);
    lemma_member_aside(with, without, name, value, 3, name);
    lemma_member_aside(with, without, name, value, 4, name);
}

/// A text without choices, or without usage, reads as one where they are `null`.
pub proof fn law_missing_parts_of_a_text_read_as_null(
    with: Seq<char>,
    without: Seq<char>,
    name: Seq<char>,
    value: Seq<char>,
)
    requires
        adds_member(with, without, name, value),
        name == "choices"@ || name == "usage"@,
        lacks_member(without, name),
        raw::is_null(value),
    ensures
        OpenAIChatResponse::from_text(with) == OpenAIChatResponse::from_text(without),
{
    lemma_response_members_differ();
    let known = response_members();
    assert(known[0] != known[3] && known[1] != known[3] && known[2] != known[3] && known[4]
        != known[3]);
    assert(known[0] != known[4] && known[1] != known[4] && known[2] != known[4]);
    lemma_member_aside(with, without, name, value, 0, "id"@);
    lemma_member_aside(with, without, name, value, 1, "object"@);
    lemma_member_aside(with, without, name, value, 2, "model"@);
    lemma_member_aside(with, without, name, value, 3, "choices"@);
    lemma_member_aside(with, without, name, value, 4, "usage"@);
}

/// A text whose choices are neither `null` nor an array cannot be read.
pub proof fn law_strange_choices_of_a_text_are_an_error(
    with: Seq<char>,
    without: Seq<char>,
    value: Seq<char>,
)
    requires
        adds_member(with, without, "choices"@, value),
        !raw::is_null(value),
        !(raw::shape_of(value) is List),
    ensures
        OpenAIChatResponse::from_text(with) is None,
{
    lemma_member_aside(with, without, "choices"@, value, 3, "choices"@);
}

/// Arguments that are a text are taken as they are, and those that are `null` are none.
pub proof fn law_arguments_keep_their_text(text: Seq<char>)
    ensures
        wire_openai::arguments_text(json::Json::Str(text)) == text,
        wire_openai::arguments_text(json::Json::Null) == Seq::<char>::empty(),
{
}

} // verus!
