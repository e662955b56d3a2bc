//! Answers, with and without an envelope.
use acosmi::models::adapters::openai::finish::map_finish_reason;
use acosmi::models::adapters::openai::response::convert_openai_to_anthropic;
use acosmi::models::adapters::openai::response::convert_openai_to_chat_response;
use acosmi::models::adapters::openai::response::open_envelope;
use acosmi::models::adapters::openai::response::parse_openai_response_to_anthropic;
use acosmi::models::adapters::openai::response::parse_response;
use acosmi::models::adapters::openai::response::parse_stream_line;
use acosmi::models::adapters::openai::response::try_parse_json;
use acosmi::models::adapters::openai::response::unwrap_api_response;
use acosmi::models::wire_openai::OpenAIChatResponse;
use acosmi::shared::decode::FromJson;
use acosmi::shared::errors::Error;
use serde_json::Value;

const BARE: &str = r#"{"id":"c1","object":"chat.completion","model":"m","choices":[{"index":0,"message":{"role":"assistant","reasoning_content":"hm","content":"hello","tool_calls":[{"id":"t","type":"function","function":{"name":"f","arguments":"{\"a\":1}"}},{"id":"u","type":"function","function":{"arguments":"not json"}}]},"finish_reason":"length"},{"index":1,"message":{"role":"assistant","content":"other"},"finish_reason":"stop"}],"usage":{"prompt_tokens":3,"completion_tokens":5,"total_tokens":8}}"#;

fn json(text: &str) -> Value {
    serde_json::from_str(text).unwrap()
}

#[test]
fn answer_has_the_blocks_of_the_first_choice() {
    let answer = parse_response(BARE.as_bytes()).unwrap();
    assert_eq!(answer.id, "c1");
    assert_eq!(answer.kind, "message");
    assert_eq!(answer.model, "m");
    assert_eq!(answer.role, "assistant");
    assert_eq!(answer.stop_reason, "max_tokens");
    assert_eq!(answer.usage.input_tokens, 3);
    assert_eq!(answer.usage.output_tokens, 5);
    assert_eq!(answer.token_remaining, -1);
    assert_eq!(answer.call_remaining, -1);
    assert_eq!(answer.model_token_remaining, -1);
    assert_eq!(answer.model_token_remaining_etu, -1);
    let kinds: Vec<&str> = answer.content.iter().map(|b| b.kind.as_str()).collect();
    assert_eq!(kinds, ["thinking", "text", "tool_use", "tool_use"]);
    assert_eq!(answer.content[0].thinking.as_deref(), Some("hm"));
    assert_eq!(answer.content[0].text, None);
    assert_eq!(answer.content[1].text.as_deref(), Some("hello"));
    assert_eq!(answer.content[2].id.as_deref(), Some("t"));
    assert_eq!(answer.content[2].name.as_deref(), Some("f"));
    assert_eq!(answer.content[2].input, Some(json(r#"{"a":1}"#)));
    assert_eq!(answer.content[3].name, None);
    assert_eq!(answer.content[3].input, Some(json("\"not json\"")));
}

#[test]
fn both_dialects_tell_the_same() {
    let oai = OpenAIChatResponse::from_value(&json(BARE)).unwrap();
    let chat = convert_openai_to_chat_response(&oai);
    let anthropic = convert_openai_to_anthropic(&oai);
    assert_eq!(chat.id, anthropic.id);
    assert_eq!(chat.kind, anthropic.kind);
    assert_eq!(chat.model, anthropic.model);
    assert_eq!(chat.role, anthropic.role);
    assert_eq!(chat.stop_reason, anthropic.stop_reason);
    assert_eq!(anthropic.stop_sequence, None);
    assert_eq!(chat.usage.input_tokens, anthropic.usage.input_tokens);
    assert_eq!(chat.usage.output_tokens, anthropic.usage.output_tokens);
    assert_eq!(chat.content.len(), anthropic.content.len());
    for (a, b) in chat.content.iter().zip(&anthropic.content) {
        assert_eq!(a.kind, b.kind);
        assert_eq!(a.text, b.text);
        assert_eq!(a.thinking, b.thinking);
        assert_eq!(a.id, b.id);
        assert_eq!(a.name, b.name);
        assert_eq!(a.input, b.input);
    }
}

#[test]
fn envelope_is_taken_off() {
    let wrapped = format!("{{\"code\":0,\"message\":\"ok\",\"data\":{BARE}}}");
    assert_eq!(parse_response(wrapped.as_bytes()).unwrap().content.len(), 4);
    let wrapped = format!("{{\"data\":{BARE}}}");
    assert_eq!(parse_openai_response_to_anthropic(wrapped.as_bytes()).unwrap().content.len(), 4);
    assert_eq!(unwrap_api_response(b"{\"data\":{\"b\":1, \"a\":2}}").unwrap(), r#"{"a":2,"b":1}"#);
    assert_eq!(unwrap_api_response(b"{\"data\":null}").unwrap(), "{\"data\":null}");
    assert_eq!(unwrap_api_response(b" [1] ").unwrap(), " [1] ");
    assert_eq!(unwrap_api_response(b"oops").unwrap(), "oops");
}

#[test]
fn refusal_is_a_business_error() {
    let refuse = |body: &str| match parse_response(body.as_bytes()) {
        Err(Error::Business(e)) => (e.code, e.message),
        other => panic!("{other:?}"),
    };
    assert_eq!(refuse(r#"{"code":4001,"message":"no","data":{}}"#), (4001, "no".to_string()));
    assert_eq!(refuse(r#"{"code":-1,"message":7,"data":0}"#), (-1, String::new()));
    assert_eq!(refuse(r#"{"code":5,"data":[]}"#), (5, String::new()));
}

#[test]
fn code_that_is_no_integer_is_none() {
    let wrapper = json(r#"{"code":"5","data":{"a":1}}"#);
    assert_eq!(open_envelope(&wrapper, "body").unwrap(), r#"{"a":1}"#);
    let wrapper = json(r#"{"code":1.5,"data":"x"}"#);
    assert_eq!(open_envelope(&wrapper, "body").unwrap(), "\"x\"");
    assert_eq!(open_envelope(&json(r#"{"code":5}"#), "body").unwrap(), "body");
}

#[test]
fn body_that_is_no_response_is_an_error() {
    let complain = |body: &[u8]| {
        let error = parse_response(body).unwrap_err();
        let message = error.message().to_string();
        assert!(parse_openai_response_to_anthropic(body).is_err());
        message.strip_prefix("decode openai response: ").unwrap().to_string()
    };
    assert!(complain(b"{}").starts_with("missing field `id`"));
    assert!(complain(b"[]")
        .starts_with("invalid length 0, expected struct OpenAIChatResponse with 5 elements"));
    assert!(complain(b"\"x\"")
        .starts_with("invalid type: string \"x\", expected struct OpenAIChatResponse"));
    assert_eq!(complain(b"{"), "EOF while parsing an object at line 1 column 1");
    assert_eq!(complain(b""), "EOF while parsing a value at line 1 column 0");
    let bad = BARE.replace("\"prompt_tokens\":3", "\"prompt_tokens\":3.5");
    assert!(complain(bad.as_bytes())
        .starts_with("invalid type: floating point `3.5`, expected i64"));
    for bad in ["{\"id\":\"c\",}", "{\"id\" \"c\"}", "{id:1}", "{\"id\":\"c\"} x", "[1,]", "[,]", "nul", "{}]"] {
        complain(bad.as_bytes());
    }
}

#[test]
fn member_that_is_written_twice_is_an_error() {
    let cases = [
        ("\"id\":\"c1\"", "\"id\":\"c1\",\"id\":\"c1\""),
        ("\"id\":\"c1\"", "\"id\":\"c1\",\"\\u0069d\":\"c1\""),
        ("\"model\":\"m\"", "\"usage\":null,\"model\":\"m\""),
        ("\"prompt_tokens\":3", "\"prompt_tokens\":3,\"prompt_tokens\":3"),
        ("\"finish_reason\":\"stop\"", "\"finish_reason\":\"stop\",\"index\":1"),
        ("\"role\":\"assistant\"", "\"role\":\"assistant\",\"role\":\"user\""),
        ("\"type\":\"function\"", "\"type\":\"function\",\"type\":\"function\""),
        ("\"name\":\"f\"", "\"name\":\"f\",\"name\":null"),
    ];
    for (once, twice) in cases {
        let body = BARE.replace(once, twice);
        assert_ne!(body, BARE);
        let error = parse_response(body.as_bytes()).unwrap_err();
        assert!(error.message().starts_with("decode openai response: duplicate field `"), "{body}");
    }
    let unknown = BARE.replace("\"model\":\"m\"", "\"x\":1,\"model\":\"m\",\"x\":2");
    assert_eq!(parse_response(unknown.as_bytes()).unwrap().model, "m");
}

#[test]
fn unknown_members_are_skipped_whatever_they_hold() {
    let deep = format!("{}{}", "[".repeat(5000), "]".repeat(5000));
    for value in ["1e999", "-0", "\"\\ud800\"", "{\"id\":1,\"id\":2}", deep.as_str()] {
        for place in ["\"model\":\"m\"", "\"role\":\"assistant\"", "\"prompt_tokens\":3", "\"name\":\"f\""] {
            let body = BARE.replace(place, &format!("\"x\" : {value} ,{place}"));
            assert_ne!(body, BARE);
            assert_eq!(parse_response(body.as_bytes()).unwrap().content.len(), 4);
        }
    }
    let bad = BARE.replace("\"model\":\"m\"", "\"x\":[1,\"model\":\"m\"");
    assert!(parse_response(bad.as_bytes()).is_err());
}

fn nested(levels: usize) -> String {
    format!("{}{}", "[".repeat(levels), "]".repeat(levels))
}

#[test]
fn arguments_may_nest_as_deep_as_the_parser_goes() {
    type Levels = Vec<Vec<Vec<Vec<Vec<Vec<Vec<Value>>>>>>>;
    for (levels, fits) in [(0, true), (1, true), (120, true), (121, false), (127, false)] {
        let value = if levels == 0 { "{ \"a\": 1 }".to_string() } else { nested(levels) };
        let around = format!("[[[[[[[{value}]]]]]]]");
        assert_eq!(serde_json::from_str::<Levels>(&around).is_ok(), fits);
        let body = BARE.replace("\"arguments\":\"not json\"", &format!("\"arguments\":{value}"));
        assert_ne!(body, BARE);
        match parse_response(body.as_bytes()) {
            Ok(answer) => {
                assert!(fits);
                let given: Value = serde_json::from_str(&value).unwrap();
                assert_eq!(answer.content[3].input, Some(given));
            }
            Err(_) => assert!(!fits),
        }
    }
}

#[test]
fn response_may_be_an_array() {
    let body = br#" [ "c1" , "o", "m", [[0, ["assistant", "hi", null, "hm"], "stop"]], [3, 5, 8] ] "#;
    let answer = parse_response(body).unwrap();
    assert_eq!(answer.id, "c1");
    assert_eq!(answer.content.len(), 2);
    assert_eq!(answer.usage.output_tokens, 5);
    assert_eq!(parse_response(br#"["c1","o","m"]"#).unwrap().content.len(), 0);
    assert!(parse_response(br#"["c1","o"]"#).is_err());
    assert!(parse_response(br#"["c1","o","m",null,null,1]"#).is_err());
}

#[test]
fn bytes_that_are_no_text_are_replaced() {
    assert_eq!(unwrap_api_response(b"a\xffb").unwrap(), "a\u{fffd}b");
    assert_eq!(unwrap_api_response("\u{4e2d}".as_bytes()).unwrap(), "\u{4e2d}");
}

#[test]
fn arguments_that_are_no_json_stay_a_text() {
    assert_eq!(try_parse_json("[1,2]"), json("[1,2]"));
    assert_eq!(try_parse_json("{\"a\":"), Value::String("{\"a\":".to_string()));
    assert_eq!(try_parse_json(""), Value::String(String::new()));
}

#[test]
fn finish_reasons_become_stop_reasons() {
    for (finish, stop) in [
        ("stop", "end_turn"),
        ("tool_calls", "tool_use"),
        ("length", "max_tokens"),
        ("content_filter", "content_filter"),
        ("", ""),
    ] {
        assert_eq!(map_finish_reason(finish), stop);
    }
}

#[test]
fn line_is_passed_on() {
    let (event, done) = parse_stream_line("delta", "{\"a\":1}").unwrap();
    assert!(!done);
    assert_eq!(event.event, "delta");
    assert_eq!(event.data, "{\"a\":1}");
    let (event, done) = parse_stream_line("delta", "[DONE]").unwrap();
    assert!(done);
    assert_eq!(event.event, "");
    assert_eq!(event.data, "");
    let error = parse_stream_line("delta", "[DONE] ").unwrap_err();
    assert!(error.message().starts_with("parse openai stream chunk: "));
}
