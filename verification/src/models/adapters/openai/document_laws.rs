//! What holds of the documents that events are printed from, and of what can be read out of them.
use crate::models::adapters::openai::content_laws;
use crate::models::adapters::openai::events;
use crate::models::adapters::openai::events::read_stream_usage;
use crate::models::adapters::openai::events::StreamMessageUsage;
use crate::models::types::StreamEvent;
use crate::shared::documents;
use crate::shared::json;
use serde_json::Value;
use vstd::prelude::*;

verus! {

/// The document is an object with these members and no other.
pub open spec fn has_only(doc: json::Json, names: Set<Seq<char>>) -> bool {
    doc is Object && doc->Object_0.dom() == names
}

/// The member of a member.
pub open spec fn inner(doc: json::Json, outer: Seq<char>, name: Seq<char>) -> Option<json::Json> {
    if documents::member(doc, outer) is Some {
        documents::member(documents::member(doc, outer)->Some_0, name)
    } else {
        None
    }
}

/// The event is printed from the document, and goes by the name that the document says it is.
pub open spec fn printed(written: StreamEvent, doc: json::Json) -> bool {
    &&& written.data@ == json::json_print(doc)
    &&& documents::says(documents::member(doc, "type"@), written.event@)
}

/// The events are printed from the documents, one for one.
pub open spec fn all_printed(written: Seq<StreamEvent>, docs: Seq<json::Json>) -> bool {
    &&& written.len() == docs.len()
    &&& forall|i: int| 0 <= i < docs.len() ==> #[trigger] printed(written[i], docs[i])
}

/// The documents that the events are printed from.
pub open spec fn docs_of(out: Seq<events::Event>) -> Seq<json::Json> {
    Seq::new(out.len(), |i: int| out[i].json())
}

proof fn lemma_names()
    ensures
        "type"@.len() == 4 && "type"@[1] == 'y',
        "text"@.len() == 4 && "text"@[1] == 'e',
        "role"@.len() == 4 && "role"@[1] == 'o',
        "name"@.len() == 4 && "name"@[1] == 'a',
        "id"@.len() == 2,
        "index"@.len() == 5 && "index"@[1] == 'n' && "index"@[2] == 'd',
        "delta"@.len() == 5 && "delta"@[1] == 'e',
        "usage"@.len() == 5 && "usage"@[1] == 's',
        "model"@.len() == 5 && "model"@[1] == 'o',
        "input"@.len() == 5 && "input"@[1] == 'n' && "input"@[2] == 'p',
        "message"@.len() == 7 && "message"@[0] == 'm',
        "content"@.len() == 7 && "content"@[0] == 'c',
        "thinking"@.len() == 8,
        "stop_reason"@.len() == 11,
        "partial_json"@.len() == 12 && "partial_json"@[0] == 'p',
        "input_tokens"@.len() == 12 && "input_tokens"@[0] == 'i',
        "output_tokens"@.len() == 13 && "output_tokens"@[0] == 'o',
        "content_block"@.len() == 13 && "content_block"@[0] == 'c',
        "prompt_tokens"@.len() == 13,
        "completion_tokens"@.len() == 17,
{
    reveal_strlit("type");
    reveal_strlit("text");
    reveal_strlit("role");
    reveal_strlit("name");
    reveal_strlit("id");
    reveal_strlit("index");
    reveal_strlit("delta");
    reveal_strlit("usage");
    reveal_strlit("model");
    reveal_strlit("input");
    reveal_strlit("message");
    reveal_strlit("content");
    reveal_strlit("thinking");
    reveal_strlit("stop_reason");
    reveal_strlit("partial_json");
    reveal_strlit("input_tokens");
    reveal_strlit("output_tokens");
    reveal_strlit("content_block");
    reveal_strlit("prompt_tokens");
    reveal_strlit("completion_tokens");
}

/// A message starts as an empty one of the assistant, under the id that it has.
pub proof fn law_message_start_says_its_id(id: Seq<char>)
    ensures
        ({
            let e = events::Event::MessageStart { id };
            let doc = e.json();
            &&& e.name() == "message_start"@
            &&& has_only(doc, set!["type"@, "message"@])
            &&& documents::says(documents::member(doc, "type"@), "message_start"@)
            &&& has_only(
                documents::member(doc, "message"@)->Some_0,
                set!["id"@, "type"@, "role"@, "content"@, "model"@],
            )
            &&& documents::says(inner(doc, "message"@, "id"@), id)
            &&& documents::says(inner(doc, "message"@, "type"@), "message"@)
            &&& documents::says(inner(doc, "message"@, "role"@), "assistant"@)
            &&& inner(doc, "message"@, "content"@) == Some(json::Json::Array(Seq::empty()))
            &&& documents::says(inner(doc, "message"@, "model"@), Seq::empty())
        }),
{
    lemma_names();
    let doc = (events::Event::MessageStart { id }).json();
    assert(doc->Object_0.dom() =~= set!["type"@, "message"@]);
    let message = documents::member(doc, "message"@)->Some_0;
    assert(message->Object_0.dom() =~= set!["id"@, "type"@, "role"@, "content"@, "model"@]);
}

/// A block of thinking or text starts empty, under its index.
pub proof fn law_block_starts_empty(index: i64)
    ensures
        ({
            let e = events::Event::BlockStart { index, block: events::Block::Thinking };
            let doc = e.json();
            &&& e.name() == "content_block_start"@
            &&& has_only(doc, set!["type"@, "index"@, "content_block"@])
            &&& documents::says(documents::member(doc, "type"@), "content_block_start"@)
            &&& documents::member(doc, "index"@) == Some(
                json::Json::Number(json::number_of_i64(index)),
            )
            &&& has_only(
                documents::member(doc, "content_block"@)->Some_0,
                set!["type"@, "thinking"@],
            )
            &&& documents::says(inner(doc, "content_block"@, "type"@), "thinking"@)
            &&& documents::says(inner(doc, "content_block"@, "thinking"@), Seq::empty())
        }),
        ({
            let e = events::Event::BlockStart { index, block: events::Block::Text };
            let doc = e.json();
            &&& e.name() == "content_block_start"@
            &&& has_only(doc, set!["type"@, "index"@, "content_block"@])
            &&& documents::says(documents::member(doc, "type"@), "content_block_start"@)
            &&& documents::member(doc, "index"@) == Some(
                json::Json::Number(json::number_of_i64(index)),
            )
            &&& has_only(documents::member(doc, "content_block"@)->Some_0, set!["type"@, "text"@])
            &&& documents::says(inner(doc, "content_block"@, "type"@), "text"@)
            &&& documents::says(inner(doc, "content_block"@, "text"@), Seq::empty())
        }),
{
    lemma_names();
    let thinking = (events::Event::BlockStart { index, block: events::Block::Thinking }).json();
    let text = (events::Event::BlockStart { index, block: events::Block::Text }).json();
    assert(thinking->Object_0.dom() =~= set!["type"@, "index"@, "content_block"@]);
    assert(text->Object_0.dom() =~= set!["type"@, "index"@, "content_block"@]);
    let thinks = documents::member(thinking, "content_block"@)->Some_0;
    let says = documents::member(text, "content_block"@)->Some_0;
    assert(thinks->Object_0.dom() =~= set!["type"@, "thinking"@]);
    assert(says->Object_0.dom() =~= set!["type"@, "text"@]);
}

/// A block of a tool call starts with the id and the name that the call has, those that it has, and
/// with no input, under its index.
pub proof fn law_tool_block_says_id_and_name(
    index: i64,
    id: Option<Seq<char>>,
    name: Option<Seq<char>>,
)
    ensures
        ({
            let e = events::Event::BlockStart { index, block: events::Block::ToolUse { id, name } };
            let doc = e.json();
            &&& e.name() == "content_block_start"@
            &&& has_only(doc, set!["type"@, "index"@, "content_block"@])
            &&& documents::says(documents::member(doc, "type"@), "content_block_start"@)
            &&& documents::member(doc, "index"@) == Some(
                json::Json::Number(json::number_of_i64(index)),
            )
            &&& documents::says(inner(doc, "content_block"@, "type"@), "tool_use"@)
            &&& id is Some ==> documents::says(inner(doc, "content_block"@, "id"@), id->Some_0)
            &&& id is None ==> inner(doc, "content_block"@, "id"@) is None
            &&& name is Some ==> documents::says(inner(doc, "content_block"@, "name"@), name->Some_0)
            &&& name is None ==> inner(doc, "content_block"@, "name"@) is None
            &&& inner(doc, "content_block"@, "input"@) == Some(json::Json::Object(Map::empty()))
            &&& forall|other: Seq<char>|
                #[trigger] inner(doc, "content_block"@, other) is Some ==> other == "type"@ || other
                    == "id"@ || other == "name"@ || other == "input"@
        }),
{
    lemma_names();
    let doc = (events::Event::BlockStart { index, block: events::Block::ToolUse { id, name } }).json();
    assert(doc->Object_0.dom() =~= set!["type"@, "index"@, "content_block"@]);
}

/// A piece of thinking, of text or of input is in the document of its event as it is, character for
/// character, under the index of its block.
pub proof fn law_pieces_are_written_as_they_are(index: i64, said: Seq<char>)
    ensures
        ({
            let e = events::Event::BlockDelta { index, piece: events::Piece::Thinking(said) };
            let doc = e.json();
            &&& e.name() == "content_block_delta"@
            &&& has_only(doc, set!["type"@, "index"@, "delta"@])
            &&& documents::says(documents::member(doc, "type"@), "content_block_delta"@)
            &&& documents::member(doc, "index"@) == Some(
                json::Json::Number(json::number_of_i64(index)),
            )
            &&& has_only(documents::member(doc, "delta"@)->Some_0, set!["type"@, "thinking"@])
            &&& documents::says(inner(doc, "delta"@, "type"@), "thinking_delta"@)
            &&& documents::says(inner(doc, "delta"@, "thinking"@), said)
        }),
        ({
            let e = events::Event::BlockDelta { index, piece: events::Piece::Text(said) };
            let doc = e.json();
            &&& e.name() == "content_block_delta"@
            &&& has_only(doc, set!["type"@, "index"@, "delta"@])
            &&& documents::says(documents::member(doc, "type"@), "content_block_delta"@)
            &&& documents::member(doc, "index"@) == Some(
                json::Json::Number(json::number_of_i64(index)),
            )
            &&& has_only(documents::member(doc, "delta"@)->Some_0, set!["type"@, "text"@])
            &&& documents::says(inner(doc, "delta"@, "type"@), "text_delta"@)
            &&& documents::says(inner(doc, "delta"@, "text"@), said)
        }),
        ({
            let e = events::Event::BlockDelta { index, piece: events::Piece::Input(said) };
            let doc = e.json();
            &&& e.name() == "content_block_delta"@
            &&& has_only(doc, set!["type"@, "index"@, "delta"@])
            &&& documents::says(documents::member(doc, "type"@), "content_block_delta"@)
            &&& documents::member(doc, "index"@) == Some(
                json::Json::Number(json::number_of_i64(index)),
            )
            &&& has_only(documents::member(doc, "delta"@)->Some_0, set!["type"@, "partial_json"@])
            &&& documents::says(inner(doc, "delta"@, "type"@), "input_json_delta"@)
            &&& documents::says(inner(doc, "delta"@, "partial_json"@), said)
        }),
{
    lemma_names();
    let thought = (events::Event::BlockDelta { index, piece: events::Piece::Thinking(said) }).json();
    let text = (events::Event::BlockDelta { index, piece: events::Piece::Text(said) }).json();
    let input = (events::Event::BlockDelta { index, piece: events::Piece::Input(said) }).json();
    assert(thought->Object_0.dom() =~= set!["type"@, "index"@, "delta"@]);
    assert(text->Object_0.dom() =~= set!["type"@, "index"@, "delta"@]);
    assert(input->Object_0.dom() =~= set!["type"@, "index"@, "delta"@]);
    assert(documents::member(thought, "delta"@)->Some_0->Object_0.dom() =~= set![
        "type"@,
        "thinking"@,
    ]);
    assert(documents::member(text, "delta"@)->Some_0->Object_0.dom() =~= set!["type"@, "text"@]);
    assert(documents::member(input, "delta"@)->Some_0->Object_0.dom() =~= set![
        "type"@,
        "partial_json"@,
    ]);
}

/// A block stops under its index.
pub proof fn law_block_stops_under_its_index(index: i64)
    ensures
        ({
            let e = events::Event::BlockStop { index };
            let doc = e.json();
            &&& e.name() == "content_block_stop"@
            &&& has_only(doc, set!["type"@, "index"@])
            &&& documents::says(documents::member(doc, "type"@), "content_block_stop"@)
            &&& documents::member(doc, "index"@) == Some(
                json::Json::Number(json::number_of_i64(index)),
            )
        }),
{
    lemma_names();
    let doc = (events::Event::BlockStop { index }).json();
    assert(doc->Object_0.dom() =~= set!["type"@, "index"@]);
}

/// The end of a message says its stop reason, and its usage where one is known: of the counts those
/// that were given, each under its own name.
pub proof fn law_message_end_says_reason_and_usage(
    stop_reason: Seq<char>,
    usage: Option<StreamMessageUsage>,
)
    ensures
        ({
            let e = events::Event::MessageDelta { stop_reason, usage };
            let doc = e.json();
            &&& e.name() == "message_delta"@
            &&& documents::says(documents::member(doc, "type"@), "message_delta"@)
            &&& has_only(documents::member(doc, "delta"@)->Some_0, set!["stop_reason"@])
            &&& documents::says(inner(doc, "delta"@, "stop_reason"@), stop_reason)
            &&& usage is None ==> has_only(doc, set!["type"@, "delta"@])
            &&& usage is Some ==> has_only(doc, set!["type"@, "delta"@, "usage"@])
            &&& usage is Some ==> is_usage(documents::member(doc, "usage"@)->Some_0, usage->Some_0)
        }),
        ({
            let doc = events::Event::MessageStop.json();
            &&& events::Event::MessageStop.name() == "message_stop"@
            &&& has_only(doc, set!["type"@])
            &&& documents::says(documents::member(doc, "type"@), "message_stop"@)
        }),
{
    lemma_names();
    let doc = (events::Event::MessageDelta { stop_reason, usage }).json();
    if usage is None {
        assert(doc->Object_0.dom() =~= set!["type"@, "delta"@]);
    } else {
        assert(doc->Object_0.dom() =~= set!["type"@, "delta"@, "usage"@]);
    }
    assert(documents::member(doc, "delta"@)->Some_0->Object_0.dom() =~= set!["stop_reason"@]);
    assert(events::Event::MessageStop.json()->Object_0.dom() =~= set!["type"@]);
}

/// The document says these counts, those that there are, and nothing else.
pub open spec fn is_usage(doc: json::Json, usage: StreamMessageUsage) -> bool {
    &&& doc is Object
    &&& documents::member(doc, "input_tokens"@) == (if usage.input_tokens is Some {
        Some(json::Json::Number(usage.input_tokens->Some_0))
    } else {
        None
    })
    &&& documents::member(doc, "output_tokens"@) == (if usage.output_tokens is Some {
        Some(json::Json::Number(usage.output_tokens->Some_0))
    } else {
        None
    })
    &&& forall|name: Seq<char>| #[trigger]
        documents::member(doc, name) is Some ==> name == "input_tokens"@ || name == "output_tokens"@
}

/// A usage is written as the counts that it has.
pub proof fn law_usage_is_written_as_it_is(usage: StreamMessageUsage, value: Value)
    requires
        call_ensures(StreamMessageUsage::to_json, (&usage,), value),
    ensures
        is_usage(json::value_json(value), usage),
{
    lemma_names();
}

/// The usage that the part of a frame gives: none, where it is no object; and else the number of
/// prompt tokens as that of the input, and the number of completion tokens as that of the output, each
/// where it is a number.
pub open spec fn gives_usage(part: Option<json::Json>, usage: Option<StreamMessageUsage>) -> bool {
    if part is Some && part->Some_0 is Object {
        let prompt = documents::member(part->Some_0, "prompt_tokens"@);
        let completion = documents::member(part->Some_0, "completion_tokens"@);
        &&& usage is Some
        &&& usage->Some_0.input_tokens == (if prompt is Some && prompt->Some_0 is Number {
            Some(prompt->Some_0->Number_0)
        } else {
            None
        })
        &&& usage->Some_0.output_tokens == (if completion is Some && completion->Some_0 is Number {
            Some(completion->Some_0->Number_0)
        } else {
            None
        })
    } else {
        usage is None
    }
}

/// A usage is read as it is given: the prompt counts as input and the completion as output.
pub proof fn law_usage_is_read_as_it_is(raw: Option<&Value>, usage: Option<StreamMessageUsage>)
    requires
        call_ensures(read_stream_usage, (raw,), usage),
    ensures
        gives_usage(
            if raw is Some {
                Some(json::value_json(*raw->Some_0))
            } else {
                None
            },
            usage,
        ),
{
}

/// The text that a document adds to a block under that name; empty, where it adds none.
pub open spec fn added(doc: json::Json, name: Seq<char>) -> Seq<char> {
    if documents::is_text(inner(doc, "delta"@, name)) {
        inner(doc, "delta"@, name)->Some_0->Str_0
    } else {
        Seq::empty()
    }
}

/// What the documents add to blocks under that name, one after the other.
pub open spec fn all_added(docs: Seq<json::Json>, name: Seq<char>) -> Seq<char>
    decreases docs.len(),
{
    if docs.len() == 0 {
        Seq::empty()
    } else {
        all_added(docs.drop_last(), name) + added(docs.last(), name)
    }
}

proof fn lemma_added(e: events::Event)
    ensures
        added(e.json(), "thinking"@) == content_laws::thinking_piece(e),
        added(e.json(), "text"@) == content_laws::text_piece(e),
{
    lemma_names();
}

/// What can be read out of the documents of events is what the events add.
pub proof fn law_documents_add_what_events_add(out: Seq<events::Event>)
    ensures
        all_added(docs_of(out), "thinking"@) == content_laws::thinking_told(out),
        all_added(docs_of(out), "text"@) == content_laws::text_told(out),
    decreases out.len(),
{
    if out.len() > 0 {
        law_documents_add_what_events_add(out.drop_last());
        lemma_added(out.last());
        assert(docs_of(out).drop_last() =~= docs_of(out.drop_last()));
        assert(docs_of(out).last() == out.last().json());
    }
}

/// Events that are told are printed from their documents, under the names that these say.
pub proof fn law_told_events_are_printed(written: Seq<StreamEvent>, out: Seq<events::Event>)
    requires
        events::tell(written, out),
    ensures
        all_printed(written, docs_of(out)),
{
    lemma_names();
    assert forall|i: int| 0 <= i < out.len() implies #[trigger] printed(
        written[i],
        docs_of(out)[i],
    ) by {
        assert(events::tells(written[i], out[i]));
        lemma_typed(out[i]);
    }
}

proof fn lemma_typed(e: events::Event)
    ensures
        documents::says(documents::member(e.json(), "type"@), e.name()),
{
    lemma_names();
}

} // verus!
