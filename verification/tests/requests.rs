//! The body of a request, member by member.
use acosmi::models::adapters::openai::request::build_request_body;
use acosmi::models::adapters::openai::request::resolve_openai_reasoning_effort;
use acosmi::models::adapters::openai::request::resolve_openai_reasoning_effort_with_max;
use acosmi::models::adapters::openai::request::resolve_openai_response_format;
use acosmi::models::types::ChatMessage;
use acosmi::models::types::ChatRequest;
use acosmi::models::types::EffortConfig;
use acosmi::models::types::ModelCapabilities;
use acosmi::models::types::OutputConfig;
use acosmi::models::types::ThinkingConfig;
use acosmi::models::types::THINKING_HIGH;
use acosmi::models::types::THINKING_MAX;
use acosmi::models::types::THINKING_OFF;
use serde_json::Value;

fn json(text: &str) -> Value {
    serde_json::from_str(text).unwrap()
}

fn members(text: &str) -> serde_json::Map<String, Value> {
    serde_json::from_str(text).unwrap()
}

fn effort(level: &str) -> Option<EffortConfig> {
    Some(EffortConfig { level: level.to_string() })
}

fn thinking(level: &str) -> Option<ThinkingConfig> {
    Some(ThinkingConfig { level: Some(level.to_string()) })
}

fn body(caps: ModelCapabilities, req: ChatRequest) -> Value {
    Value::Object(build_request_body(&caps, &req))
}

#[test]
fn request_that_asks_for_nothing_has_one_member() {
    let caps = ModelCapabilities::default();
    assert_eq!(body(caps, ChatRequest::default()), json(r#"{"stream":false}"#));
}

#[test]
fn request_that_asks_for_everything_has_all_members() {
    let caps = ModelCapabilities { supports_max_effort: true, supports_thinking: true };
    let req = ChatRequest {
        raw_messages: None,
        messages: Some(vec![
            ChatMessage { role: "user".to_string(), content: "hi".to_string() },
            ChatMessage { role: "assistant".to_string(), content: "".to_string() },
        ]),
        stream: Some(true),
        max_tokens: Some(64),
        system: Some(json("\"be brief\"")),
        temperature: Some(Value::from(0.5)),
        tools: Some(json("[{\"name\":\"f\"}]")),
        thinking: thinking(THINKING_OFF),
        effort: effort("max"),
        speed: Some("fast".to_string()),
        output_config: Some(OutputConfig {
            format: Some("json_schema".to_string()),
            schema: Some(json("{\"type\":\"object\"}")),
        }),
        metadata: Some(members(r#"{"k":[1]}"#)),
        parallel_tool_calls: Some(true),
        extra_body: Some(members(r#"{"speed":"slow","x":1,"stream_options":null}"#)),
        end_user_id: Some("u".to_string()),
    };
    assert_eq!(
        body(caps, req),
        json(
            r#"{"messages":[{"role":"user","content":"hi"},{"role":"assistant","content":""}],"stream":true,"max_tokens":64,"system":"be brief","temperature":0.5,"tools":[{"name":"f"}],"reasoning_effort":"max","thinking":{"type":"disabled"},"speed":"slow","response_format":{"type":"json_schema","json_schema":{"schema":{"type":"object"},"strict":true}},"metadata":{"k":[1]},"parallel_tool_calls":true,"x":1,"user_id":"u","stream_options":{"include_usage":true}}"#
        )
    );
}

#[test]
fn empty_wishes_are_left_out() {
    let caps = ModelCapabilities::default();
    let req = ChatRequest {
        messages: Some(vec![]),
        stream: Some(false),
        max_tokens: Some(0),
        thinking: thinking(THINKING_OFF),
        speed: Some(String::new()),
        output_config: Some(OutputConfig { format: Some(String::new()), schema: None }),
        end_user_id: Some(String::new()),
        ..Default::default()
    };
    assert_eq!(body(caps, req), json(r#"{"stream":false}"#));
    let req = ChatRequest { max_tokens: Some(-5), ..Default::default() };
    assert_eq!(body(caps, req), json(r#"{"stream":false}"#));
}

#[test]
fn raw_messages_are_passed_on() {
    let req = ChatRequest {
        raw_messages: Some(json("[{\"role\":\"tool\",\"x\":1}]")),
        messages: Some(vec![ChatMessage { role: "user".to_string(), content: "hi".to_string() }]),
        ..Default::default()
    };
    let body = body(ModelCapabilities::default(), req);
    assert_eq!(body["messages"], json("[{\"role\":\"tool\",\"x\":1}]"));
}

#[test]
fn effort_counts_before_thinking() {
    for (effort_level, thinking_level, plain, with_max) in [
        ("low", THINKING_MAX, "low", "low"),
        ("medium", "", "medium", "medium"),
        ("high", "low", "high", "high"),
        ("xhigh", "low", "xhigh", "xhigh"),
        ("max", "low", "high", "max"),
        ("", "low", "low", "low"),
        ("?", "medium", "medium", "medium"),
        ("", "xhigh", "xhigh", "xhigh"),
        ("", THINKING_HIGH, "high", "high"),
        ("", THINKING_MAX, "high", "max"),
        ("", THINKING_OFF, "", ""),
        ("", "?", "", ""),
    ] {
        let req = ChatRequest {
            effort: effort(effort_level),
            thinking: thinking(thinking_level),
            ..Default::default()
        };
        assert_eq!(resolve_openai_reasoning_effort(&req), plain);
        assert_eq!(resolve_openai_reasoning_effort_with_max(&req, false), plain);
        assert_eq!(resolve_openai_reasoning_effort_with_max(&req, true), with_max);
    }
    let req = ChatRequest { thinking: Some(ThinkingConfig { level: None }), ..Default::default() };
    assert_eq!(resolve_openai_reasoning_effort(&req), "");
}

#[test]
fn response_format_follows_the_output_config() {
    let format = |format: Option<&str>, schema: Option<&str>| {
        resolve_openai_response_format(&ChatRequest {
            output_config: Some(OutputConfig {
                format: format.map(|s| s.to_string()),
                schema: schema.map(json),
            }),
            ..Default::default()
        })
        .map(Value::Object)
    };
    assert_eq!(format(None, Some("{}")), None);
    assert_eq!(format(Some(""), None), None);
    assert_eq!(format(Some("json_object"), None), Some(json(r#"{"type":"json_object"}"#)));
    assert_eq!(format(Some("yaml"), Some("1")), Some(json(r#"{"type":"yaml"}"#)));
    assert_eq!(
        format(Some("json_schema"), None),
        Some(json(r#"{"type":"json_schema","json_schema":{"strict":true}}"#))
    );
    assert!(resolve_openai_response_format(&ChatRequest::default()).is_none());
}
