//! The body of a request.
use crate::models::types;
use crate::models::types::ChatMessage;
use crate::models::types::ChatRequest;
use crate::models::types::ModelCapabilities;
use crate::models::types::THINKING_OFF;
use crate::shared::json;
use crate::shared::json::clone_object;
use crate::shared::json::clone_value;
use crate::shared::json::close_value;
use crate::shared::json::insert_member;
use crate::shared::json::members;
use crate::shared::json::new_object;
use crate::shared::json::number_from_i64;
use crate::shared::json::JsonNode;
use crate::shared::json::JsonObject;
use crate::shared::text::same_text;
use serde_json::Value;
use vstd::prelude::*;

verus! {

/// The reasoning effort that a request asks for; empty where it asks for none. What it says of
/// effort counts before what it says of thinking. A model without the highest level gets the one
/// below it.
pub open spec fn reasoning_effort(req: types::ChatRequestView, supports_max: bool) -> Seq<char> {
    match effort_level(req.effort, supports_max) {
        Some(level) => level,
        None => match effort_level(req.thinking, supports_max) {
            Some(level) => level,
            None => Seq::empty(),
        },
    }
}

/// The effort that a level stands for, where it stands for one.
pub open spec fn effort_level(level: Option<Seq<char>>, supports_max: bool) -> Option<Seq<char>> {
    match level {
        Some(s) => if s == "low"@ || s == "medium"@ || s == "high"@ || s == "xhigh"@ {
            Some(s)
        } else if s == "max"@ {
            Some(
                if supports_max {
                    "max"@
                } else {
                    "high"@
                },
            )
        } else {
            None
        },
        None => None,
    }
}

/// The members of an object that says what an answer is to be.
pub open spec fn format_named(name: Seq<char>) -> Map<Seq<char>, json::Json> {
    json::no_members().insert("type"@, json::Json::Str(name))
}

/// The schema that an answer is to keep to, strictly.
pub open spec fn strict_schema(schema: Option<json::Json>) -> Map<Seq<char>, json::Json> {
    with(json::no_members(), "schema"@, schema).insert("strict"@, json::Json::Bool(true))
}

/// The response format that a request asks for. One that is not known is passed on.
pub open spec fn response_format(config: Option<types::OutputConfigView>) -> Option<
    Map<Seq<char>, json::Json>,
> {
    match config {
        Some(types::OutputConfigView { format: Some(name), schema }) => if name.len() == 0 {
            None
        } else if name == "json_schema"@ {
            Some(
                format_named(name).insert("json_schema"@, json::Json::Object(strict_schema(schema))),
            )
        } else {
            Some(format_named(name))
        },
        _ => None,
    }
}

/// `body` with a member more, where there is one to add.
pub open spec fn with(
    body: Map<Seq<char>, json::Json>,
    name: Seq<char>,
    member: Option<json::Json>,
) -> Map<Seq<char>, json::Json> {
    match member {
        Some(doc) => body.insert(name, doc),
        None => body,
    }
}

/// A text as a member, where there is one that is not empty.
pub open spec fn some_text(text: Option<Seq<char>>) -> Option<json::Json> {
    match text {
        Some(s) => if s.len() > 0 {
            Some(json::Json::Str(s))
        } else {
            None
        },
        None => None,
    }
}

/// An object as a member, where there is one.
pub open spec fn some_object(object: Option<Map<Seq<char>, json::Json>>) -> Option<json::Json> {
    match object {
        Some(members) => Some(json::Json::Object(members)),
        None => None,
    }
}

/// A truth value as a member, where there is one.
pub open spec fn some_bool(value: Option<bool>) -> Option<json::Json> {
    match value {
        Some(b) => Some(json::Json::Bool(b)),
        None => None,
    }
}

/// A message as a document.
pub open spec fn message_json(message: types::ChatMessageView) -> json::Json {
    json::Json::Object(
        json::no_members().insert("role"@, json::Json::Str(message.role)).insert(
            "content"@,
            json::Json::Str(message.content),
        ),
    )
}

/// The messages of a request: those that are passed on as they are, or else the ones it has.
pub open spec fn messages_json(req: types::ChatRequestView) -> Option<json::Json> {
    match req.raw_messages {
        Some(raw) => Some(raw),
        None => match req.messages {
            Some(messages) => if messages.len() > 0 {
                Some(
                    json::Json::Array(
                        Seq::new(messages.len(), |i: int| message_json(messages[i])),
                    ),
                )
            } else {
                None
            },
            None => None,
        },
    }
}

/// The largest number of tokens of an answer, where the request gives one.
pub open spec fn max_tokens_json(max_tokens: Option<i64>) -> Option<json::Json> {
    match max_tokens {
        Some(n) => if n > 0 {
            Some(json::Json::Number(json::number_of_i64(n)))
        } else {
            None
        },
        None => None,
    }
}

/// That a model is not to think, where the request says so and the model could.
pub open spec fn thinking_json(req: types::ChatRequestView, supports_thinking: bool) -> Option<
    json::Json,
> {
    if supports_thinking && req.thinking == Some(THINKING_OFF@) {
        Some(json::Json::Object(format_named("disabled"@)))
    } else {
        None
    }
}

/// The members that a request body has of its own.
pub open spec fn own_members(caps: ModelCapabilities, req: types::ChatRequestView) -> Map<
    Seq<char>,
    json::Json,
> {
    let effort = reasoning_effort(req, caps.supports_max_effort);
    let m1 = with(json::no_members(), "messages"@, messages_json(req));
    let m2 = m1.insert("stream"@, json::Json::Bool(req.stream == Some(true)));
    let m3 = with(m2, "max_tokens"@, max_tokens_json(req.max_tokens));
    let m4 = with(m3, "system"@, req.system);
    let m5 = with(m4, "temperature"@, req.temperature);
    let m6 = with(m5, "tools"@, req.tools);
    let m7 = with(m6, "reasoning_effort"@, some_text(Some(effort)));
    let m8 = with(m7, "thinking"@, thinking_json(req, caps.supports_thinking));
    let m9 = with(m8, "speed"@, some_text(req.speed));
    let m10 = with(m9, "response_format"@, some_object(response_format(req.output_config)));
    let m11 = with(m10, "metadata"@, some_object(req.metadata));
    with(m11, "parallel_tool_calls"@, some_bool(req.parallel_tool_calls))
}

/// `body` with the members of `extra`, which replace its own.
pub open spec fn overlaid(
    body: Map<Seq<char>, json::Json>,
    extra: Option<Map<Seq<char>, json::Json>>,
) -> Map<Seq<char>, json::Json> {
    match extra {
        Some(members) => body.union_prefer_right(members),
        None => body,
    }
}

/// What a stream is asked for besides its events: the usage.
pub open spec fn stream_options(req: types::ChatRequestView) -> Option<json::Json> {
    if req.stream == Some(true) {
        Some(
            json::Json::Object(
                json::no_members().insert("include_usage"@, json::Json::Bool(true)),
            ),
        )
    } else {
        None
    }
}

/// The members of a request body. The user that the request names and the options of its stream
/// count before whatever the extra members say.
pub open spec fn request_body(caps: ModelCapabilities, req: types::ChatRequestView) -> Map<
    Seq<char>,
    json::Json,
> {
    with(
        with(
            overlaid(own_members(caps, req), req.extra_body),
            "user_id"@,
            some_text(req.end_user_id),
        ),
        "stream_options"@,
        stream_options(req),
    )
}

fn is_one_of_four(level: &str) -> (result: bool)
    ensures
        result == (level@ == "low"@ || level@ == "medium"@ || level@ == "high"@ || level@
            == "xhigh"@),
{
    same_text(level, "low") || same_text(level, "medium") || same_text(level, "high") || same_text(
        level,
        "xhigh",
    )
}

fn read_effort_level(level: &str, supports_max: bool) -> (effort: Option<String>)
    ensures
        effort.deep_view() == effort_level(Some(level@), supports_max),
{
    if is_one_of_four(level) {
        Some(level.to_string())
    } else if same_text(level, "max") {
        if supports_max {
            Some("max".to_string())
        } else {
            Some("high".to_string())
        }
    } else {
        None
    }
}

/// The reasoning effort for a model without the highest level; empty where the request asks for
/// none.
pub fn resolve_openai_reasoning_effort(req: &ChatRequest) -> (effort: String)
    ensures
        effort@ == reasoning_effort(req@, false),
{
    resolve_openai_reasoning_effort_with_max(req, false)
}

/// The reasoning effort; empty where the request asks for none.
pub fn resolve_openai_reasoning_effort_with_max(req: &ChatRequest, supports_max: bool) -> (effort:
    String)
    ensures
        effort@ == reasoning_effort(req@, supports_max),
{
    if let Some(effort) = &req.effort {
        if let Some(level) = read_effort_level(effort.level.as_str(), supports_max) {
            return level;
        }
    }
    if let Some(thinking) = &req.thinking {
        if let Some(level) = &thinking.level {
            if let Some(level) = read_effort_level(level.as_str(), supports_max) {
                return level;
            }
        }
    }
    String::new()
}

fn text_value(s: &str) -> (value: Value)
    ensures
        json::value_json(value) == json::Json::Str(s@),
{
    close_value(JsonNode::Str(s.to_string()))
}

fn bool_value(b: bool) -> (value: Value)
    ensures
        json::value_json(value) == json::Json::Bool(b),
{
    close_value(JsonNode::Bool(b))
}

fn named_format(name: &str) -> (object: JsonObject)
    ensures
        json::object_json(object) == format_named(name@),
{
    let mut object: JsonObject = new_object();
    insert_member(&mut object, "type", text_value(name));
    object
}

/// The response format that a request asks for.
pub fn resolve_openai_response_format(req: &ChatRequest) -> (format: Option<JsonObject>)
    ensures
        types::members(format) == response_format(req@.output_config),
{
    match &req.output_config {
        Some(config) => match &config.format {
            Some(name) => {
                let name: &str = name.as_str();
                if name.is_empty() {
                    None
                } else if same_text(name, "json_schema") {
                    let mut schema: JsonObject = new_object();
                    insert_optional(&mut schema, "schema", &config.schema);
                    insert_member(&mut schema, "strict", bool_value(true));
                    let mut format: JsonObject = named_format(name);
                    insert_member(&mut format, "json_schema", close_value(JsonNode::Object(schema)));
                    Some(format)
                } else {
                    Some(named_format(name))
                }
            },
            None => None,
        },
        None => None,
    }
}

fn insert_optional(body: &mut JsonObject, name: &str, member: &Option<Value>)
    ensures
        json::object_json(*final(body)) == with(
            json::object_json(*old(body)),
            name@,
            types::document(*member),
        ),
{
    if let Some(value) = member {
        insert_member(body, name, clone_value(value));
    }
}

fn insert_text(body: &mut JsonObject, name: &str, text: &Option<String>)
    ensures
        json::object_json(*final(body)) == with(
            json::object_json(*old(body)),
            name@,
            some_text(text.deep_view()),
        ),
{
    if let Some(s) = text {
        if !s.as_str().is_empty() {
            insert_member(body, name, text_value(s.as_str()));
        }
    }
}

fn insert_object(body: &mut JsonObject, name: &str, object: &Option<JsonObject>)
    ensures
        json::object_json(*final(body)) == with(
            json::object_json(*old(body)),
            name@,
            some_object(types::members(*object)),
        ),
{
    if let Some(members) = object {
        insert_member(body, name, close_value(JsonNode::Object(clone_object(members))));
    }
}

fn messages_value(messages: &Vec<ChatMessage>) -> (value: Value)
    ensures
        json::value_json(value) == json::Json::Array(
            Seq::new(messages@.len(), |i: int| message_json(messages.deep_view()[i])),
        ),
{
    let mut items: Vec<Value> = Vec::new();
    let mut i: usize = 0;
    while i < messages.len()
        invariant
            i <= messages@.len(),
            items@.len() == i,
            forall|j: int|
                0 <= j < i ==> json::value_json(#[trigger] items@[j]) == message_json(
                    messages@[j].deep_view(),
                ),
        decreases messages@.len() - i,
    {
        let mut message: JsonObject = new_object();
        insert_member(&mut message, "role", text_value(messages[i].role.as_str()));
        insert_member(&mut message, "content", text_value(messages[i].content.as_str()));
        items.push(close_value(JsonNode::Object(message)));
        i += 1;
    }
    assert(json::values_json(items@) =~= Seq::new(
        messages@.len(),
        |i: int| message_json(messages.deep_view()[i]),
    ));
    close_value(JsonNode::Array(items))
}

fn insert_messages(body: &mut JsonObject, req: &ChatRequest)
    ensures
        json::object_json(*final(body)) == with(
            json::object_json(*old(body)),
            "messages"@,
            messages_json(req@),
        ),
{
    match &req.raw_messages {
        Some(raw) => insert_member(body, "messages", clone_value(raw)),
        None => {
            if let Some(messages) = &req.messages {
                if messages.len() > 0 {
                    let value: Value = messages_value(messages);
                    insert_member(body, "messages", value);
                }
            }
        },
    }
}

fn overlay(body: &mut JsonObject, extra: &JsonObject)
    ensures
        json::object_json(*final(body)) == json::object_json(*old(body)).union_prefer_right(
            json::object_json(*extra),
        ),
{
    let ghost own = json::object_json(*body);
    let ghost added = json::object_json(*extra);
    let entries: Vec<(String, Value)> = members(extra);
    let mut i: usize = 0;
    while i < entries.len()
        invariant
            i <= entries@.len(),
            json::entries_of(entries@, added),
            forall|key: Seq<char>| #[trigger]
                json::object_json(*body).dom().contains(key) <==> own.dom().contains(key)
                    || exists|j: int| 0 <= j < i && (#[trigger] entries@[j]).0@ == key,
            forall|j: int|
                0 <= j < i ==> json::object_json(*body)[(#[trigger] entries@[j]).0@]
                    == json::value_json(entries@[j].1),
            forall|key: Seq<char>|
                own.dom().contains(key) && (forall|j: int|
                    0 <= j < i ==> (#[trigger] entries@[j]).0@ != key)
                    ==> #[trigger] json::object_json(*body)[key] == own[key],
        decreases entries@.len() - i,
    {
        let ghost before = json::object_json(*body);
        insert_member(body, entries[i].0.as_str(), clone_value(&entries[i].1));
        proof {
            let after = json::object_json(*body);
            let name = entries@[i as int].0@;
            assert forall|key: Seq<char>| #[trigger] after.dom().contains(key) <==> (
            own.dom().contains(key) || exists|j: int|
                0 <= j < i + 1 && (#[trigger] entries@[j]).0@ == key) by {
                if key == name {
                    assert(entries@[i as int].0@ == key);
                } else {
                    assert(before.dom().contains(key) == after.dom().contains(key));
                }
            }
        }
        i += 1;
    }
    let ghost whole = json::object_json(*body);
    assert forall|key: Seq<char>| #[trigger]
        whole.dom().contains(key) implies whole[key] == own.union_prefer_right(added)[key] by {
        if added.dom().contains(key) {
            let j = choose|j: int| 0 <= j < entries@.len() && (#[trigger] entries@[j]).0@ == key;
            assert(whole[entries@[j].0@] == json::value_json(entries@[j].1));
        } else {
            assert forall|j: int| 0 <= j < entries@.len() implies (#[trigger] entries@[j]).0@
                != key by {}
        }
    }
    assert(whole =~= own.union_prefer_right(added));
}

/// The body of a request for an answer.
pub fn build_request_body(caps: &ModelCapabilities, req: &ChatRequest) -> (body: JsonObject)
    ensures
        json::object_json(body) == request_body(*caps, req@),
{
    let mut body: JsonObject = new_object();
    let streams: bool = match req.stream {
        Some(stream) => stream,
        None => false,
    };
    insert_messages(&mut body, req);
    insert_member(&mut body, "stream", bool_value(streams));
    if let Some(n) = req.max_tokens {
        if n > 0 {
            insert_member(&mut body, "max_tokens", close_value(JsonNode::Number(number_from_i64(n))));
        }
    }
    insert_optional(&mut body, "system", &req.system);
    insert_optional(&mut body, "temperature", &req.temperature);
    insert_optional(&mut body, "tools", &req.tools);
    let effort: String = resolve_openai_reasoning_effort_with_max(req, caps.supports_max_effort);
    if !effort.as_str().is_empty() {
        insert_member(&mut body, "reasoning_effort", text_value(effort.as_str()));
    }
    if caps.supports_thinking && thinks_off(req) {
        insert_member(
            &mut body,
            "thinking",
            close_value(JsonNode::Object(named_format("disabled"))),
        );
    }
    insert_text(&mut body, "speed", &req.speed);
    let format: Option<JsonObject> = resolve_openai_response_format(req);
    insert_object(&mut body, "response_format", &format);
    insert_object(&mut body, "metadata", &req.metadata);
    if let Some(parallel) = req.parallel_tool_calls {
        insert_member(&mut body, "parallel_tool_calls", bool_value(parallel));
    }
    assert(json::object_json(body) == own_members(*caps, req@));
    if let Some(extra) = &req.extra_body {
        overlay(&mut body, extra);
    }
    insert_text(&mut body, "user_id", &req.end_user_id);
    if streams {
        let mut options: JsonObject = new_object();
        insert_member(&mut options, "include_usage", bool_value(true));
        insert_member(&mut body, "stream_options", close_value(JsonNode::Object(options)));
    }
    body
}

fn thinks_off(req: &ChatRequest) -> (off: bool)
    ensures
        off == (req@.thinking == Some(THINKING_OFF@)),
{
    match &req.thinking {
        Some(thinking) => match &thinking.level {
            Some(level) => same_text(level.as_str(), THINKING_OFF),
            None => false,
        },
        None => false,
    }
}

/// The names of the members that a request body has of its own.
pub open spec fn own_name(name: Seq<char>) -> bool {
    ||| name == "messages"@
    ||| name == "stream"@
    ||| name == "max_tokens"@
    ||| name == "system"@
    ||| name == "temperature"@
    ||| name == "tools"@
    ||| name == "reasoning_effort"@
    ||| name == "thinking"@
    ||| name == "speed"@
    ||| name == "response_format"@
    ||| name == "metadata"@
    ||| name == "parallel_tool_calls"@
    ||| name == "user_id"@
    ||| name == "stream_options"@
}

/// The extra members of a request body have this one.
pub open spec fn extra_has(req: types::ChatRequestView, name: Seq<char>) -> bool {
    req.extra_body matches Some(extra) && extra.dom().contains(name)
}

/// A request body holds nothing but its own members and the extra ones that the caller gave.
pub proof fn law_body_holds_nothing_else(
    caps: ModelCapabilities,
    req: types::ChatRequestView,
    name: Seq<char>,
)
    requires
        request_body(caps, req).dom().contains(name),
    ensures
        own_name(name) || extra_has(req, name),
{
}

/// The user that a request names is the one in its body, whatever the extra members say.
pub proof fn law_named_user_wins(
    caps: ModelCapabilities,
    req: types::ChatRequestView,
    user: Seq<char>,
)
    requires
        req.end_user_id == Some(user),
        user.len() > 0,
    ensures
        request_body(caps, req).dom().contains("user_id"@),
        request_body(caps, req)["user_id"@] == json::Json::Str(user),
{
    lemma_user_is_no_option();
}

proof fn lemma_user_is_no_option()
    ensures
        "user_id"@ != "stream_options"@,
{
    reveal_strlit("user_id");
    reveal_strlit("stream_options");
    assert("user_id"@.len() != "stream_options"@.len());
}

/// An extra member is in the body as the caller gave it, but for the user that the request names and
/// the options of its stream.
pub proof fn law_extra_members_win(
    caps: ModelCapabilities,
    req: types::ChatRequestView,
    name: Seq<char>,
)
    requires
        extra_has(req, name),
        name == "user_id"@ ==> some_text(req.end_user_id) is None,
        name == "stream_options"@ ==> req.stream != Some(true),
    ensures
        request_body(caps, req).dom().contains(name),
        request_body(caps, req)[name] == req.extra_body->Some_0[name],
{
}

/// A stream is always asked for its usage; an answer in one piece never is, unless the caller does.
pub proof fn law_stream_asks_for_usage(caps: ModelCapabilities, req: types::ChatRequestView)
    ensures
        req.stream == Some(true) ==> request_body(caps, req).dom().contains("stream_options"@)
            && Some(request_body(caps, req)["stream_options"@]) == stream_options(req),
        req.stream != Some(true) && !extra_has(req, "stream_options"@) ==> !request_body(
            caps,
            req,
        ).dom().contains("stream_options"@),
{
    lemma_option_is_no_own_member();
}

proof fn lemma_option_is_no_own_member()
    ensures
        "stream_options"@ != "messages"@,
        "stream_options"@ != "stream"@,
        "stream_options"@ != "max_tokens"@,
        "stream_options"@ != "system"@,
        "stream_options"@ != "temperature"@,
        "stream_options"@ != "tools"@,
        "stream_options"@ != "reasoning_effort"@,
        "stream_options"@ != "thinking"@,
        "stream_options"@ != "speed"@,
        "stream_options"@ != "response_format"@,
        "stream_options"@ != "metadata"@,
        "stream_options"@ != "parallel_tool_calls"@,
        "stream_options"@ != "user_id"@,
{
    reveal_strlit("stream_options");
    reveal_strlit("messages");
    reveal_strlit("stream");
    reveal_strlit("max_tokens");
    reveal_strlit("system");
    reveal_strlit("temperature");
    reveal_strlit("tools");
    reveal_strlit("reasoning_effort");
    reveal_strlit("thinking");
    reveal_strlit("speed");
    reveal_strlit("response_format");
    reveal_strlit("metadata");
    reveal_strlit("parallel_tool_calls");
    reveal_strlit("user_id");
    assert("stream_options"@.len() == 14);
}

/// The effort is one of the levels that a gateway knows, and the highest one only for a model that
/// has it.
pub proof fn law_effort_is_a_known_level(req: types::ChatRequestView, supports_max: bool)
    ensures
        ({
            let effort = reasoning_effort(req, supports_max);
            ||| effort.len() == 0
            ||| effort == "low"@
            ||| effort == "medium"@
            ||| effort == "high"@
            ||| effort == "xhigh"@
            ||| effort == "max"@ && supports_max
        }),
{
}

/// What a request says of effort counts before what it says of thinking.
pub proof fn law_effort_counts_before_thinking(
    req: types::ChatRequestView,
    thinking: Option<Seq<char>>,
    supports_max: bool,
)
    requires
        effort_level(req.effort, supports_max) is Some,
    ensures
        reasoning_effort(req, supports_max) == reasoning_effort(
            types::ChatRequestView { thinking, ..req },
            supports_max,
        ),
{
}

} // verus!
