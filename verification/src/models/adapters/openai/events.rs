//! The events that a stream is told in: a message that starts, blocks of content that start, grow
//! and stop, and a message that ends.
use crate::models::types::StreamEvent;
use crate::shared::json;
use crate::shared::json::clone_number;
use crate::shared::json::close_value;
use crate::shared::json::get_member;
use crate::shared::json::insert_member;
use crate::shared::json::new_object;
use crate::shared::json::number_from_i64;
use crate::shared::json::open_value;
use crate::shared::json::print_value;
use crate::shared::json::JsonNode;
use crate::shared::json::JsonObject;
use crate::shared::json::JsonRef;
use serde_json::Number;
use serde_json::Value;
use vstd::prelude::*;

verus! {

/// The token counts that the end of a message carries. A count that is `None` was not given; it is
/// not 0.
#[derive(Debug)]
pub struct StreamMessageUsage {
    pub input_tokens: Option<Number>,
    pub output_tokens: Option<Number>,
}

/// What a block of content is.
pub ghost enum Block {
    Thinking,
    Text,
    ToolUse { id: Option<Seq<char>>, name: Option<Seq<char>> },
}

/// What is added to a block of content.
pub ghost enum Piece {
    Thinking(Seq<char>),
    Text(Seq<char>),
    Input(Seq<char>),
}

/// An event.
pub ghost enum Event {
    MessageStart { id: Seq<char> },
    BlockStart { index: i64, block: Block },
    BlockDelta { index: i64, piece: Piece },
    BlockStop { index: i64 },
    MessageDelta { stop_reason: Seq<char>, usage: Option<StreamMessageUsage> },
    MessageStop,
}

/// A text, as a document.
pub open spec fn text(s: Seq<char>) -> json::Json {
    json::Json::Str(s)
}

/// An index, as a document.
pub open spec fn number(i: i64) -> json::Json {
    json::Json::Number(json::number_of_i64(i))
}

/// The members of an object that has one more than `members`.
pub open spec fn and(
    members: Map<Seq<char>, json::Json>,
    name: Seq<char>,
    member: json::Json,
) -> Map<Seq<char>, json::Json> {
    members.insert(name, member)
}

/// The members of an object that has one more than `members`, where there is one to add.
pub open spec fn and_text(
    members: Map<Seq<char>, json::Json>,
    name: Seq<char>,
    member: Option<Seq<char>>,
) -> Map<Seq<char>, json::Json> {
    match member {
        Some(s) => members.insert(name, text(s)),
        None => members,
    }
}

/// The members of an object that has one more than `members`, where there is one to add.
pub open spec fn and_number(
    members: Map<Seq<char>, json::Json>,
    name: Seq<char>,
    member: Option<Number>,
) -> Map<Seq<char>, json::Json> {
    match member {
        Some(n) => members.insert(name, json::Json::Number(n)),
        None => members,
    }
}

/// An object whose member `type` says what it is.
pub open spec fn typed(kind: Seq<char>) -> Map<Seq<char>, json::Json> {
    json::no_members().insert("type"@, text(kind))
}

impl StreamMessageUsage {
    /// The document that says how many tokens a message took. Only counts that were given are in it.
    pub open spec fn json(self) -> json::Json {
        json::Json::Object(
            and_number(
                and_number(json::no_members(), "input_tokens"@, self.input_tokens),
                "output_tokens"@,
                self.output_tokens,
            ),
        )
    }
}

impl Block {
    /// The document that a block starts as.
    pub open spec fn json(self) -> json::Json {
        json::Json::Object(
            match self {
                Block::Thinking => and(typed("thinking"@), "thinking"@, text(Seq::empty())),
                Block::Text => and(typed("text"@), "text"@, text(Seq::empty())),
                Block::ToolUse { id, name } => and(
                    and_text(and_text(typed("tool_use"@), "id"@, id), "name"@, name),
                    "input"@,
                    json::Json::Object(json::no_members()),
                ),
            },
        )
    }
}

impl Piece {
    /// The document that says what is added to a block.
    pub open spec fn json(self) -> json::Json {
        json::Json::Object(
            match self {
                Piece::Thinking(s) => and(typed("thinking_delta"@), "thinking"@, text(s)),
                Piece::Text(s) => and(typed("text_delta"@), "text"@, text(s)),
                Piece::Input(s) => and(typed("input_json_delta"@), "partial_json"@, text(s)),
            },
        )
    }
}

/// The message that a stream starts with: an empty one.
pub open spec fn empty_message(id: Seq<char>) -> Map<Seq<char>, json::Json> {
    and(
        and(
            and(
                and(and(json::no_members(), "id"@, text(id)), "type"@, text("message"@)),
                "role"@,
                text("assistant"@),
            ),
            "content"@,
            json::Json::Array(Seq::empty()),
        ),
        "model"@,
        text(Seq::empty()),
    )
}

impl Event {
    /// The name that the event goes by.
    pub open spec fn name(self) -> Seq<char> {
        match self {
            Event::MessageStart { .. } => "message_start"@,
            Event::BlockStart { .. } => "content_block_start"@,
            Event::BlockDelta { .. } => "content_block_delta"@,
            Event::BlockStop { .. } => "content_block_stop"@,
            Event::MessageDelta { .. } => "message_delta"@,
            Event::MessageStop => "message_stop"@,
        }
    }

    /// The document that the event carries.
    pub open spec fn json(self) -> json::Json {
        json::Json::Object(
            match self {
                Event::MessageStart { id } => and(
                    typed(self.name()),
                    "message"@,
                    json::Json::Object(empty_message(id)),
                ),
                Event::BlockStart { index, block } => and(
                    and(typed(self.name()), "index"@, number(index)),
                    "content_block"@,
                    block.json(),
                ),
                Event::BlockDelta { index, piece } => and(
                    and(typed(self.name()), "index"@, number(index)),
                    "delta"@,
                    piece.json(),
                ),
                Event::BlockStop { index } => and(typed(self.name()), "index"@, number(index)),
                Event::MessageDelta { stop_reason, usage } => {
                    let members = and(
                        typed(self.name()),
                        "delta"@,
                        json::Json::Object(
                            and(json::no_members(), "stop_reason"@, text(stop_reason)),
                        ),
                    );
                    match usage {
                        Some(u) => and(members, "usage"@, u.json()),
                        None => members,
                    }
                },
                Event::MessageStop => typed(self.name()),
            },
        )
    }
}

/// `written` is the event as it goes over the wire.
pub open spec fn tells(written: StreamEvent, event: Event) -> bool {
    &&& written.event@ == event.name()
    &&& written.data@ == json::json_print(event.json())
}

/// `written` are the events as they go over the wire.
pub open spec fn tell(written: Seq<StreamEvent>, events: Seq<Event>) -> bool {
    &&& written.len() == events.len()
    &&& forall|i: int| 0 <= i < events.len() ==> #[trigger] tells(written[i], events[i])
}

/// `after` is `before` and then the events.
pub open spec fn appended(
    before: Seq<StreamEvent>,
    after: Seq<StreamEvent>,
    events: Seq<Event>,
) -> bool {
    &&& before.is_prefix_of(after)
    &&& tell(after.skip(before.len() as int), events)
}

pub(crate) proof fn lemma_appended_nothing(before: Seq<StreamEvent>)
    ensures
        appended(before, before, Seq::empty()),
{
    assert(before.skip(before.len() as int) =~= Seq::empty());
}

pub(crate) proof fn lemma_appended_one(before: Seq<StreamEvent>, written: StreamEvent, event: Event)
    requires
        tells(written, event),
    ensures
        appended(before, before.push(written), seq![event]),
{
    assert(before.push(written).skip(before.len() as int) =~= seq![written]);
}

pub(crate) proof fn lemma_appended_both(
    a: Seq<StreamEvent>,
    b: Seq<StreamEvent>,
    c: Seq<StreamEvent>,
    first: Seq<Event>,
    second: Seq<Event>,
)
    requires
        appended(a, b, first),
        appended(b, c, second),
    ensures
        appended(a, c, first + second),
{
    let n = a.len() as int;
    let m = b.len() as int;
    assert forall|i: int| 0 <= i < (first + second).len() implies #[trigger] tells(
        c.skip(n)[i],
        (first + second)[i],
    ) by {
        if i < first.len() {
            assert(tells(b.skip(n)[i], first[i]));
            assert(c[n + i] == b[n + i]);
        } else {
            assert(tells(c.skip(m)[i - first.len()], second[i - first.len()]));
        }
    }
}

fn text_value(s: &str) -> (value: Value)
    ensures
        json::value_json(value) == text(s@),
{
    close_value(JsonNode::Str(s.to_string()))
}

fn index_value(index: i64) -> (value: Value)
    ensures
        json::value_json(value) == number(index),
{
    close_value(JsonNode::Number(number_from_i64(index)))
}

fn typed_object(kind: &str) -> (object: JsonObject)
    ensures
        json::object_json(object) == typed(kind@),
{
    let mut object: JsonObject = new_object();
    insert_member(&mut object, "type", text_value(kind));
    object
}

impl StreamMessageUsage {
    /// The counts as a document.
    pub fn to_json(&self) -> (value: Value)
        ensures
            json::value_json(value) == self.json(),
    {
        let mut usage: JsonObject = new_object();
        match &self.input_tokens {
            Some(n) => insert_member(
                &mut usage,
                "input_tokens",
                close_value(JsonNode::Number(clone_number(n))),
            ),
            None => {},
        }
        match &self.output_tokens {
            Some(n) => insert_member(
                &mut usage,
                "output_tokens",
                close_value(JsonNode::Number(clone_number(n))),
            ),
            None => {},
        }
        close_value(JsonNode::Object(usage))
    }
}

/// The count that a usage gives under a name, where it gives a number.
pub open spec fn count_of(usage: Map<Seq<char>, json::Json>, name: Seq<char>) -> Option<Number> {
    if usage.dom().contains(name) {
        match usage[name] {
            json::Json::Number(n) => Some(n),
            _ => None,
        }
    } else {
        None
    }
}

/// The usage that a frame carries. Only an object is one. The counts are taken over as they are.
pub open spec fn usage_of(raw: Option<json::Json>) -> Option<StreamMessageUsage> {
    match raw {
        Some(json::Json::Object(usage)) => Some(
            StreamMessageUsage {
                input_tokens: count_of(usage, "prompt_tokens"@),
                output_tokens: count_of(usage, "completion_tokens"@),
            },
        ),
        _ => None,
    }
}

fn read_count(usage: &JsonObject, name: &str) -> (count: Option<Number>)
    ensures
        count == count_of(json::object_json(*usage), name@),
{
    match get_member(usage, name) {
        Some(member) => match open_value(member) {
            JsonRef::Number(n) => Some(clone_number(n)),
            _ => None,
        },
        None => None,
    }
}

/// Reads the usage that a frame carries.
pub fn read_stream_usage(raw: Option<&Value>) -> (usage: Option<StreamMessageUsage>)
    ensures
        usage == usage_of(
            match raw {
                Some(value) => Some(json::value_json(*value)),
                None => None,
            },
        ),
{
    match raw {
        Some(value) => match open_value(value) {
            JsonRef::Object(usage) => Some(
                StreamMessageUsage {
                    input_tokens: read_count(usage, "prompt_tokens"),
                    output_tokens: read_count(usage, "completion_tokens"),
                },
            ),
            _ => None,
        },
        None => None,
    }
}

fn event_of(name: &str, payload: JsonObject) -> (written: StreamEvent)
    ensures
        written.event@ == name@,
        written.data@ == json::json_print(json::Json::Object(json::object_json(payload))),
{
    StreamEvent { event: name.to_string(), data: print_value(&close_value(JsonNode::Object(payload))) }
}

pub(crate) fn message_start(id: &str) -> (written: StreamEvent)
    ensures
        tells(written, (Event::MessageStart { id: id@ })),
{
    let mut message: JsonObject = new_object();
    insert_member(&mut message, "id", text_value(id));
    insert_member(&mut message, "type", text_value("message"));
    insert_member(&mut message, "role", text_value("assistant"));
    let content: Vec<Value> = Vec::new();
    assert(json::values_json(content@) =~= Seq::empty());
    insert_member(&mut message, "content", close_value(JsonNode::Array(content)));
    let model: String = String::new();
    insert_member(&mut message, "model", close_value(JsonNode::Str(model)));
    let mut payload: JsonObject = typed_object("message_start");
    insert_member(&mut payload, "message", close_value(JsonNode::Object(message)));
    event_of("message_start", payload)
}

fn block_start(index: i64, content_block: JsonObject) -> (written: StreamEvent)
    ensures
        forall|block: Block|
            block.json() == json::Json::Object(json::object_json(content_block))
                ==> #[trigger] tells(written, (Event::BlockStart { index, block })),
{
    let mut payload: JsonObject = typed_object("content_block_start");
    insert_member(&mut payload, "index", index_value(index));
    insert_member(&mut payload, "content_block", close_value(JsonNode::Object(content_block)));
    event_of("content_block_start", payload)
}

pub(crate) fn thinking_start(index: i64) -> (written: StreamEvent)
    ensures
        tells(written, (Event::BlockStart { index, block: Block::Thinking })),
{
    let mut block: JsonObject = typed_object("thinking");
    insert_member(&mut block, "thinking", close_value(JsonNode::Str(String::new())));
    block_start(index, block)
}

pub(crate) fn text_start(index: i64) -> (written: StreamEvent)
    ensures
        tells(written, (Event::BlockStart { index, block: Block::Text })),
{
    let mut block: JsonObject = typed_object("text");
    insert_member(&mut block, "text", close_value(JsonNode::Str(String::new())));
    block_start(index, block)
}

pub(crate) fn tool_start(index: i64, id: &Option<String>, name: &Option<String>) -> (written:
    StreamEvent)
    ensures
        tells(
            written,
            (Event::BlockStart {
                index,
                block: Block::ToolUse { id: id.deep_view(), name: name.deep_view() },
            }),
        ),
{
    let mut block: JsonObject = typed_object("tool_use");
    match id {
        Some(id) => insert_member(&mut block, "id", text_value(id.as_str())),
        None => {},
    }
    match name {
        Some(name) => insert_member(&mut block, "name", text_value(name.as_str())),
        None => {},
    }
    insert_member(&mut block, "input", close_value(JsonNode::Object(new_object())));
    block_start(index, block)
}

fn block_delta(index: i64, kind: &str, name: &str, content: &str) -> (written: StreamEvent)
    ensures
        forall|piece: Piece|
            piece.json() == json::Json::Object(and(typed(kind@), name@, text(content@)))
                ==> #[trigger] tells(written, (Event::BlockDelta { index, piece })),
{
    let mut delta: JsonObject = typed_object(kind);
    insert_member(&mut delta, name, text_value(content));
    let mut payload: JsonObject = typed_object("content_block_delta");
    insert_member(&mut payload, "index", index_value(index));
    insert_member(&mut payload, "delta", close_value(JsonNode::Object(delta)));
    event_of("content_block_delta", payload)
}

pub(crate) fn thinking_delta(index: i64, content: &str) -> (written: StreamEvent)
    ensures
        tells(written, (Event::BlockDelta { index, piece: Piece::Thinking(content@) })),
{
    block_delta(index, "thinking_delta", "thinking", content)
}

pub(crate) fn text_delta(index: i64, content: &str) -> (written: StreamEvent)
    ensures
        tells(written, (Event::BlockDelta { index, piece: Piece::Text(content@) })),
{
    block_delta(index, "text_delta", "text", content)
}

pub(crate) fn input_delta(index: i64, content: &str) -> (written: StreamEvent)
    ensures
        tells(written, (Event::BlockDelta { index, piece: Piece::Input(content@) })),
{
    block_delta(index, "input_json_delta", "partial_json", content)
}

pub(crate) fn block_stop(index: i64) -> (written: StreamEvent)
    ensures
        tells(written, (Event::BlockStop { index })),
{
    let mut payload: JsonObject = typed_object("content_block_stop");
    insert_member(&mut payload, "index", index_value(index));
    event_of("content_block_stop", payload)
}

pub(crate) fn message_delta(stop_reason: &str, usage: &Option<StreamMessageUsage>) -> (written:
    StreamEvent)
    ensures
        tells(written, (Event::MessageDelta { stop_reason: stop_reason@, usage: *usage })),
{
    let mut delta: JsonObject = new_object();
    insert_member(&mut delta, "stop_reason", text_value(stop_reason));
    let mut payload: JsonObject = typed_object("message_delta");
    insert_member(&mut payload, "delta", close_value(JsonNode::Object(delta)));
    match usage {
        Some(u) => insert_member(&mut payload, "usage", u.to_json()),
        None => {},
    }
    event_of("message_delta", payload)
}

pub(crate) fn message_stop() -> (written: StreamEvent)
    ensures
        tells(written, Event::MessageStop),
{
    event_of("message_stop", typed_object("message_stop"))
}

} // verus!
