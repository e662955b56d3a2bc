//! What holds of every request body, member by member.
use crate::models::adapters::openai::request;
use crate::models::adapters::openai::request::build_request_body;
use crate::models::adapters::openai::request::resolve_openai_reasoning_effort;
use crate::models::adapters::openai::request::resolve_openai_reasoning_effort_with_max;
use crate::models::adapters::openai::request::resolve_openai_response_format;
use crate::models::types;
use crate::models::types::ChatMessage;
use crate::models::types::ChatRequest;
use crate::models::types::ModelCapabilities;
use crate::models::types::OutputConfig;
use crate::models::types::THINKING_HIGH;
use crate::models::types::THINKING_MAX;
use crate::models::types::THINKING_OFF;
use crate::shared::documents;
use crate::shared::json;
use crate::shared::json::JsonObject;
use serde_json::Value;
use vstd::prelude::*;

verus! {

/// The member of that name in a body.
pub open spec fn held(body: JsonObject, name: Seq<char>) -> Option<json::Json> {
    documents::member(json::Json::Object(json::object_json(body)), name)
}

/// The caller gave a member of that name besides.
pub open spec fn besides(req: ChatRequest, name: Seq<char>) -> bool {
    req.extra_body is Some && json::object_json(req.extra_body->Some_0).dom().contains(name)
}

/// The member is that document, where there is one.
pub open spec fn is_document(member: Option<json::Json>, value: Option<Value>) -> bool {
    if value is Some {
        member == Some(json::value_json(value->Some_0))
    } else {
        member is None
    }
}

/// The member is that text, where there is one that is not empty.
pub open spec fn is_said(member: Option<json::Json>, text: Option<String>) -> bool {
    if text is Some && text->Some_0@.len() > 0 {
        documents::says(member, text->Some_0@)
    } else {
        member is None
    }
}

/// The document is that message: an object with its role and its content, and with nothing else.
pub open spec fn is_message(doc: json::Json, message: ChatMessage) -> bool {
    &&& doc is Object
    &&& documents::says(documents::member(doc, "role"@), message.role@)
    &&& documents::says(documents::member(doc, "content"@), message.content@)
    &&& forall|name: Seq<char>| #[trigger]
        doc->Object_0.dom().contains(name) ==> name == "role"@ || name == "content"@
}

proof fn lemma_names_differ()
    ensures
        "messages"@.len() == 8 && "messages"@[2] == 's',
        "stream"@.len() == 6 && "stream"@[1] == 't',
        "max_tokens"@.len() == 10,
        "system"@.len() == 6 && "system"@[1] == 'y',
        "temperature"@.len() == 11,
        "tools"@.len() == 5 && "tools"@[0] == 't',
        "reasoning_effort"@.len() == 16,
        "thinking"@.len() == 8 && "thinking"@[2] == 'i',
        "speed"@.len() == 5 && "speed"@[0] == 's',
        "response_format"@.len() == 15,
        "metadata"@.len() == 8 && "metadata"@[2] == 't',
        "parallel_tool_calls"@.len() == 19,
        "user_id"@.len() == 7,
        "stream_options"@.len() == 14,
{
    reveal_strlit("messages");
    reveal_strlit("stream");
    reveal_strlit("max_tokens");
    reveal_strlit("system");
    reveal_strlit("temperature");
    reveal_strlit("tools");
    reveal_strlit("reasoning_effort");
    reveal_strlit("thinking");
    reveal_strlit("speed");
    reveal_strlit("response_format");
    reveal_strlit("metadata");
    reveal_strlit("parallel_tool_calls");
    reveal_strlit("user_id");
    reveal_strlit("stream_options");
}

spec fn looked_up(members: Map<Seq<char>, json::Json>, name: Seq<char>) -> Option<json::Json> {
    if members.dom().contains(name) {
        Some(members[name])
    } else {
        None
    }
}

proof fn lemma_with(
    members: Map<Seq<char>, json::Json>,
    added: Seq<char>,
    member: Option<json::Json>,
    name: Seq<char>,
)
    ensures
        looked_up(request::with(members, added, member), name) == (if name == added && member is Some {
            member
        } else {
            looked_up(members, name)
        }),
{
}

proof fn lemma_own_member(caps: ModelCapabilities, req: types::ChatRequestView, name: Seq<char>)
    ensures
        looked_up(request::own_members(caps, req), name) == (if name == "messages"@ {
            request::messages_json(req)
        } else if name == "stream"@ {
            Some(json::Json::Bool(req.stream == Some(true)))
        } else if name == "max_tokens"@ {
            request::max_tokens_json(req.max_tokens)
        } else if name == "system"@ {
            req.system
        } else if name == "temperature"@ {
            req.temperature
        } else if name == "tools"@ {
            req.tools
        } else if name == "reasoning_effort"@ {
            request::some_text(Some(request::reasoning_effort(req, caps.supports_max_effort)))
        } else if name == "thinking"@ {
            request::thinking_json(req, caps.supports_thinking)
        } else if name == "speed"@ {
            request::some_text(req.speed)
        } else if name == "response_format"@ {
            request::some_object(request::response_format(req.output_config))
        } else if name == "metadata"@ {
            request::some_object(req.metadata)
        } else if name == "parallel_tool_calls"@ {
            request::some_bool(req.parallel_tool_calls)
        } else {
            None
        }),
{
    lemma_names_differ();
    let none = json::no_members();
    let m1 = request::with(none, "messages"@, request::messages_json(req));
    lemma_with(none, "messages"@, request::messages_json(req), name);
    let m2 = request::with(m1, "stream"@, Some(json::Json::Bool(req.stream == Some(true))));
    lemma_with(m1, "stream"@, Some(json::Json::Bool(req.stream == Some(true))), name);
    let m3 = request::with(m2, "max_tokens"@, request::max_tokens_json(req.max_tokens));
    lemma_with(m2, "max_tokens"@, request::max_tokens_json(req.max_tokens), name);
    let m4 = request::with(m3, "system"@, req.system);
    lemma_with(m3, "system"@, req.system, name);
    let m5 = request::with(m4, "temperature"@, req.temperature);
    lemma_with(m4, "temperature"@, req.temperature, name);
    let m6 = request::with(m5, "tools"@, req.tools);
    lemma_with(m5, "tools"@, req.tools, name);
    let m7 = request::with(m6, "reasoning_effort"@, request::some_text(Some(request::reasoning_effort(req, caps.supports_max_effort))));
    lemma_with(m6, "reasoning_effort"@, request::some_text(Some(request::reasoning_effort(req, caps.supports_max_effort))), name);
    let m8 = request::with(m7, "thinking"@, request::thinking_json(req, caps.supports_thinking));
    lemma_with(m7, "thinking"@, request::thinking_json(req, caps.supports_thinking), name);
    let m9 = request::with(m8, "speed"@, request::some_text(req.speed));
    lemma_with(m8, "speed"@, request::some_text(req.speed), name);
    let m10 = request::with(m9, "response_format"@, request::some_object(request::response_format(req.output_config)));
    lemma_with(m9, "response_format"@, request::some_object(request::response_format(req.output_config)), name);
    let m11 = request::with(m10, "metadata"@, request::some_object(req.metadata));
    lemma_with(m10, "metadata"@, request::some_object(req.metadata), name);
    let m12 = request::with(m11, "parallel_tool_calls"@, request::some_bool(req.parallel_tool_calls));
    lemma_with(m11, "parallel_tool_calls"@, request::some_bool(req.parallel_tool_calls), name);
    assert(request::own_members(caps, req) == m12);
}

proof fn lemma_sent(caps: ModelCapabilities, req: ChatRequest, name: Seq<char>, body: JsonObject)
    requires
        call_ensures(build_request_body, (&caps, &req), body),
        !besides(req, name),
        name != "user_id"@,
        name != "stream_options"@,
    ensures
        held(body, name) == looked_up(request::own_members(caps, req@), name),
{
    let own = request::own_members(caps, req@);
    let whole = request::overlaid(own, req@.extra_body);
    let named = request::with(whole, "user_id"@, request::some_text(req@.end_user_id));
    lemma_with(whole, "user_id"@, request::some_text(req@.end_user_id), name);
    lemma_with(named, "stream_options"@, request::stream_options(req@), name);
}

/// The messages of a request are in its body, one for one and in their order, each with its role and
/// its content, whoever it is from. A request without messages has none in its body.
pub proof fn law_messages_are_sent_as_they_are(
    caps: ModelCapabilities,
    req: ChatRequest,
    body: JsonObject,
)
    requires
        call_ensures(build_request_body, (&caps, &req), body),
        req.raw_messages is None,
        !besides(req, "messages"@),
    ensures
        ({
            let sent = held(body, "messages"@);
            if req.messages is Some && req.messages->Some_0@.len() > 0 {
                let messages = req.messages->Some_0@;
                &&& sent is Some && sent->Some_0 is Array
                &&& sent->Some_0->Array_0.len() == messages.len()
                &&& forall|i: int|
                    0 <= i < messages.len() ==> is_message(
                        sent->Some_0->Array_0[i],
                        #[trigger] messages[i],
                    )
            } else {
                sent is None
            }
        }),
{
    lemma_names_differ();
    if !besides(req, "messages"@) {
        lemma_sent(caps, req, "messages"@, body);
        lemma_own_member(caps, req@, "messages"@);
    }
    if req.messages is Some && req.messages->Some_0@.len() > 0 {
        let messages = req.messages->Some_0;
        let sent = held(body, "messages"@)->Some_0->Array_0;
        lemma_role_is_no_content();
        assert forall|i: int| 0 <= i < messages@.len() implies is_message(
            sent[i],
            #[trigger] messages@[i],
        ) by {
            assert(messages.deep_view()[i] == messages@[i].deep_view());
            assert(sent[i] == request::message_json(messages@[i].deep_view()));
        }
    }
}

proof fn lemma_role_is_no_content()
    ensures
        "role"@ != "content"@,
{
    reveal_strlit("role");
    reveal_strlit("content");
    assert("role"@.len() != "content"@.len());
}

/// Messages that are to be passed on as they are go in the place of the others.
pub proof fn law_raw_messages_are_sent_as_they_are(
    caps: ModelCapabilities,
    req: ChatRequest,
    raw: Value,
    body: JsonObject,
)
    requires
        call_ensures(build_request_body, (&caps, &req), body),
        req.raw_messages == Some(raw),
        !besides(req, "messages"@),
    ensures
        held(body, "messages"@) == Some(json::value_json(raw)),
{
    lemma_names_differ();
    if !besides(req, "messages"@) {
        lemma_sent(caps, req, "messages"@, body);
        lemma_own_member(caps, req@, "messages"@);
    }
}

/// A body says whether a stream is asked for, how many tokens an answer may take, what system, what
/// temperature and which tools it is for: what the request says, under its own name.
pub proof fn law_plain_members_are_sent_as_they_are(
    caps: ModelCapabilities,
    req: ChatRequest,
    body: JsonObject,
)
    requires
        call_ensures(build_request_body, (&caps, &req), body),
    ensures
        !besides(req, "stream"@) ==> held(body, "stream"@) == Some(
            json::Json::Bool(req.stream is Some && req.stream->Some_0),
        ),
        !besides(req, "max_tokens"@) ==> (if req.max_tokens is Some && req.max_tokens->Some_0 > 0 {
            held(body, "max_tokens"@) == Some(
                json::Json::Number(json::number_of_i64(req.max_tokens->Some_0)),
            )
        } else {
            held(body, "max_tokens"@) is None
        }),
        !besides(req, "system"@) ==> is_document(held(body, "system"@), req.system),
        !besides(req, "temperature"@) ==> is_document(held(body, "temperature"@), req.temperature),
        !besides(req, "tools"@) ==> is_document(held(body, "tools"@), req.tools),
{
    lemma_names_differ();
    if !besides(req, "stream"@) {
        lemma_sent(caps, req, "stream"@, body);
        lemma_own_member(caps, req@, "stream"@);
    }
    if !besides(req, "max_tokens"@) {
        lemma_sent(caps, req, "max_tokens"@, body);
        lemma_own_member(caps, req@, "max_tokens"@);
    }
    if !besides(req, "system"@) {
        lemma_sent(caps, req, "system"@, body);
        lemma_own_member(caps, req@, "system"@);
    }
    if !besides(req, "temperature"@) {
        lemma_sent(caps, req, "temperature"@, body);
        lemma_own_member(caps, req@, "temperature"@);
    }
    if !besides(req, "tools"@) {
        lemma_sent(caps, req, "tools"@, body);
        lemma_own_member(caps, req@, "tools"@);
    }
}

/// So with the speed, the metadata and whether tools may be called side by side.
pub proof fn law_options_are_sent_as_they_are(
    caps: ModelCapabilities,
    req: ChatRequest,
    body: JsonObject,
)
    requires
        call_ensures(build_request_body, (&caps, &req), body),
    ensures
        !besides(req, "speed"@) ==> is_said(held(body, "speed"@), req.speed),
        !besides(req, "metadata"@) ==> (if req.metadata is Some {
            held(body, "metadata"@) == Some(
                json::Json::Object(json::object_json(req.metadata->Some_0)),
            )
        } else {
            held(body, "metadata"@) is None
        }),
        !besides(req, "parallel_tool_calls"@) ==> (if req.parallel_tool_calls is Some {
            held(body, "parallel_tool_calls"@) == Some(
                json::Json::Bool(req.parallel_tool_calls->Some_0),
            )
        } else {
            held(body, "parallel_tool_calls"@) is None
        }),
{
    lemma_names_differ();
    if !besides(req, "speed"@) {
        lemma_sent(caps, req, "speed"@, body);
        lemma_own_member(caps, req@, "speed"@);
    }
    if !besides(req, "metadata"@) {
        lemma_sent(caps, req, "metadata"@, body);
        lemma_own_member(caps, req@, "metadata"@);
    }
    if !besides(req, "parallel_tool_calls"@) {
        lemma_sent(caps, req, "parallel_tool_calls"@, body);
        lemma_own_member(caps, req@, "parallel_tool_calls"@);
    }
}

/// The level of effort that a request names.
pub open spec fn effort_named(req: ChatRequest) -> Seq<char> {
    if req.effort is Some {
        req.effort->Some_0.level@
    } else {
        Seq::empty()
    }
}

/// The level of thinking that a request names.
pub open spec fn thinking_named(req: ChatRequest) -> Seq<char> {
    if req.thinking is Some && req.thinking->Some_0.level is Some {
        req.thinking->Some_0.level->Some_0@
    } else {
        Seq::empty()
    }
}

/// A level of effort that a gateway knows.
pub open spec fn is_level(s: Seq<char>) -> bool {
    s == "low"@ || s == "medium"@ || s == "high"@ || s == "xhigh"@ || s == "max"@
}

/// The level is sent under its own name, but for the highest one where the model does not have it:
/// that one is sent as `high`.
pub open spec fn sent_as(level: Seq<char>, has_max: bool, effort: Seq<char>) -> bool {
    if level == "max"@ && !has_max {
        effort == "high"@
    } else {
        effort == level
    }
}

/// The effort of a request: the level of effort that it names counts first, then the level of
/// thinking; where neither is one that is known, there is none.
pub open spec fn is_effort(req: ChatRequest, has_max: bool, effort: Seq<char>) -> bool {
    if is_level(effort_named(req)) {
        sent_as(effort_named(req), has_max, effort)
    } else if is_level(thinking_named(req)) {
        sent_as(thinking_named(req), has_max, effort)
    } else {
        effort.len() == 0
    }
}

proof fn lemma_levels()
    ensures
        "low"@.len() == 3 && "low"@[0] == 'l',
        "medium"@.len() == 6,
        "high"@.len() == 4,
        "xhigh"@.len() == 5,
        "max"@.len() == 3 && "max"@[0] == 'm',
{
    reveal_strlit("low");
    reveal_strlit("medium");
    reveal_strlit("high");
    reveal_strlit("xhigh");
    reveal_strlit("max");
}

/// The effort is the one that the request asks for.
pub proof fn law_effort_is_the_one_asked_for(req: ChatRequest, has_max: bool, effort: String)
    requires
        call_ensures(resolve_openai_reasoning_effort_with_max, (&req, has_max), effort),
    ensures
        is_effort(req, has_max, effort@),
{
    lemma_levels();
}

/// For a model without the highest level it is the same as for one of which nothing is said.
pub proof fn law_effort_without_the_highest_level(req: ChatRequest, effort: String)
    requires
        call_ensures(resolve_openai_reasoning_effort, (&req,), effort),
    ensures
        is_effort(req, false, effort@),
{
    lemma_levels();
}

/// The effort of a request is in its body, where it has one. A model that could think is told not to
/// just where the request says `off`.
pub proof fn law_effort_and_thinking_are_sent(
    caps: ModelCapabilities,
    req: ChatRequest,
    body: JsonObject,
)
    requires
        call_ensures(build_request_body, (&caps, &req), body),
    ensures
        !besides(req, "reasoning_effort"@) ==> (if is_level(effort_named(req)) || is_level(
            thinking_named(req),
        ) {
            &&& documents::is_text(held(body, "reasoning_effort"@))
            &&& is_effort(req, caps.supports_max_effort, held(body, "reasoning_effort"@)->Some_0->Str_0)
        } else {
            held(body, "reasoning_effort"@) is None
        }),
        !besides(req, "thinking"@) ==> (if caps.supports_thinking && thinking_named(req) == "off"@ {
            held(body, "thinking"@) == Some(
                json::Json::Object(map!["type"@ => json::Json::Str("disabled"@)]),
            )
        } else {
            held(body, "thinking"@) is None
        }),
{
    lemma_names_differ();
    if !besides(req, "reasoning_effort"@) {
        lemma_sent(caps, req, "reasoning_effort"@, body);
        lemma_own_member(caps, req@, "reasoning_effort"@);
    }
    if !besides(req, "thinking"@) {
        lemma_sent(caps, req, "thinking"@, body);
        lemma_own_member(caps, req@, "thinking"@);
    }
    lemma_levels();
    reveal_strlit("off");
    assert("off"@.len() == 3);
    if !besides(req, "thinking"@) && caps.supports_thinking && thinking_named(req) == "off"@ {
        assert(request::format_named("disabled"@) =~= map![
            "type"@ => json::Json::Str("disabled"@),
        ]);
    }
}

/// The members say the format that the configuration asks for: its name under `type`, and for
/// `json_schema` the schema, to be kept to strictly.
pub open spec fn is_format(
    members: Map<Seq<char>, json::Json>,
    format: Seq<char>,
    schema: Option<Value>,
) -> bool {
    let doc = json::Json::Object(members);
    let keeps_to = documents::member(doc, "json_schema"@);
    &&& documents::says(documents::member(doc, "type"@), format)
    &&& format != "json_schema"@ ==> keeps_to is None
    &&& format == "json_schema"@ ==> {
        &&& keeps_to is Some && keeps_to->Some_0 is Object
        &&& documents::member(keeps_to->Some_0, "strict"@) == Some(json::Json::Bool(true))
        &&& is_document(documents::member(keeps_to->Some_0, "schema"@), schema)
        &&& forall|name: Seq<char>| #[trigger]
            keeps_to->Some_0->Object_0.dom().contains(name) ==> name == "strict"@ || name
                == "schema"@
    }
    &&& forall|name: Seq<char>| #[trigger]
        members.dom().contains(name) ==> name == "type"@ || name == "json_schema"@
}

/// A format is asked for where the configuration names one.
pub open spec fn format_named(config: Option<OutputConfig>) -> Seq<char> {
    if config is Some && config->Some_0.format is Some {
        config->Some_0.format->Some_0@
    } else {
        Seq::empty()
    }
}

proof fn lemma_format(req: ChatRequest)
    ensures
        ({
            let name = format_named(req.output_config);
            let format = request::response_format(req@.output_config);
            &&& name.len() == 0 ==> format is None
            &&& name.len() > 0 ==> format is Some && is_format(
                format->Some_0,
                name,
                req.output_config->Some_0.schema,
            )
        }),
{
    reveal_strlit("type");
    reveal_strlit("json_schema");
    reveal_strlit("strict");
    reveal_strlit("schema");
    assert("type"@.len() == 4);
    assert("json_schema"@.len() == 11);
    assert("strict"@.len() == 6 && "strict"@[1] == 't');
    assert("schema"@.len() == 6 && "schema"@[1] == 'c');
}

/// The format of an answer is the one that the request asks for, with its schema.
pub proof fn law_format_is_the_one_asked_for(req: ChatRequest, format: Option<JsonObject>)
    requires
        call_ensures(resolve_openai_response_format, (&req,), format),
    ensures
        format_named(req.output_config).len() == 0 <==> format is None,
        format is Some ==> is_format(
            json::object_json(format->Some_0),
            format_named(req.output_config),
            req.output_config->Some_0.schema,
        ),
{
    lemma_format(req);
}

/// The format is in the body, where the request asks for one.
pub proof fn law_format_is_sent(caps: ModelCapabilities, req: ChatRequest, body: JsonObject)
    requires
        call_ensures(build_request_body, (&caps, &req), body),
        !besides(req, "response_format"@),
    ensures
        ({
            let sent = held(body, "response_format"@);
            &&& format_named(req.output_config).len() == 0 <==> sent is None
            &&& sent is Some ==> sent->Some_0 is Object && is_format(
                sent->Some_0->Object_0,
                format_named(req.output_config),
                req.output_config->Some_0.schema,
            )
        }),
{
    lemma_names_differ();
    if !besides(req, "response_format"@) {
        lemma_sent(caps, req, "response_format"@, body);
        lemma_own_member(caps, req@, "response_format"@);
    }
    lemma_format(req);
}

/// The user that a request names is in its body, whatever the caller gave besides; so is what a
/// stream is asked for, its usage. Anything else that the caller gave besides is in the body as it was
/// given, in the place of what would stand there.
pub proof fn law_members_besides_are_sent(
    caps: ModelCapabilities,
    req: ChatRequest,
    name: Seq<char>,
    body: JsonObject,
)
    requires
        call_ensures(build_request_body, (&caps, &req), body),
    ensures
        ({
            let user = req.end_user_id is Some && req.end_user_id->Some_0@.len() > 0;
            let streams = req.stream is Some && req.stream->Some_0;
            &&& user ==> documents::says(held(body, "user_id"@), req.end_user_id->Some_0@)
            &&& streams ==> held(body, "stream_options"@) == Some(
                json::Json::Object(map!["include_usage"@ => json::Json::Bool(true)]),
            )
            &&& !user && !besides(req, "user_id"@) ==> held(body, "user_id"@) is None
            &&& !streams && !besides(req, "stream_options"@) ==> held(body, "stream_options"@)
                is None
            &&& besides(req, name) && (name == "user_id"@ ==> !user) && (name == "stream_options"@
                ==> !streams) ==> held(body, name) == Some(
                json::object_json(req.extra_body->Some_0)[name],
            )
        }),
{
    lemma_names_differ();
    assert(request::stream_options(req@) is Some ==> request::stream_options(req@)->Some_0->Object_0
        =~= map!["include_usage"@ => json::Json::Bool(true)]);
}

/// A body has no member but those that a request has a name for, and those that the caller gave
/// besides.
pub proof fn law_body_has_no_other_member(
    caps: ModelCapabilities,
    req: ChatRequest,
    name: Seq<char>,
    body: JsonObject,
)
    requires
        call_ensures(build_request_body, (&caps, &req), body),
        held(body, name) is Some,
        !besides(req, name),
    ensures
        name == "messages"@ || name == "stream"@ || name == "max_tokens"@ || name == "system"@ || name
            == "temperature"@ || name == "tools"@ || name == "reasoning_effort"@ || name
            == "thinking"@ || name == "speed"@ || name == "response_format"@ || name == "metadata"@
            || name == "parallel_tool_calls"@ || name == "user_id"@ || name == "stream_options"@,
{
}

/// A request asks for nothing, and a model can do nothing, unless somebody says so.
pub proof fn law_nothing_is_asked_for_at_first(req: ChatRequest, caps: ModelCapabilities)
    requires
        call_ensures(<ChatRequest as Default>::default, (), req),
        call_ensures(<ModelCapabilities as Default>::default, (), caps),
    ensures
        req.raw_messages is None,
        req.messages is None,
        req.stream is None,
        req.max_tokens is None,
        req.system is None,
        req.temperature is None,
        req.tools is None,
        req.effort is None,
        thinking_named(req).len() == 0,
        req.speed is None,
        req.output_config is None,
        req.metadata is None,
        req.parallel_tool_calls is None,
        req.extra_body is None,
        req.end_user_id is None,
        !caps.supports_max_effort,
        !caps.supports_thinking,
{
}

/// The levels of thinking go by these names.
pub proof fn law_levels_of_thinking_go_by_their_names()
    ensures
        THINKING_OFF@ == "off"@,
        THINKING_HIGH@ == "high"@,
        THINKING_MAX@ == "max"@,
{
}

} // verus!
