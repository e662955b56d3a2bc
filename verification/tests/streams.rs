//! What holds of every stream, on streams.
use acosmi::models::adapters::openai::events::read_stream_usage;
use acosmi::models::adapters::openai::events::StreamMessageUsage;
use acosmi::models::adapters::openai::stream::OpenAIStreamConverter;
use acosmi::models::types::StreamEvent;
use acosmi::models::wire_openai::OpenAIFunctionCall;
use acosmi::models::wire_openai::OpenAIStreamChoice;
use acosmi::models::wire_openai::OpenAIStreamChunk;
use acosmi::models::wire_openai::OpenAIStreamDelta;
use acosmi::models::wire_openai::OpenAIStreamToolCall;
use serde_json::Value;

const TEXT: &str = r#"{"id":"c","choices":[{"delta":{"content":"hello "}}]}"#;
const MORE: &str = r#"{"id":"c","choices":[{"delta":{"content":"world"}}]}"#;
const THINK: &str = r#"{"id":"c","choices":[{"delta":{"reasoning_content":"hm"}}]}"#;
const STOP: &str = r#"{"id":"c","choices":[{"delta":{},"finish_reason":"stop"}]}"#;
const USAGE: &str = r#"{"choices":[],"usage":{"prompt_tokens":1,"completion_tokens":2.5}}"#;

fn json(text: &str) -> Value {
    serde_json::from_str(text).unwrap()
}

fn names(events: &[StreamEvent]) -> Vec<&str> {
    events.iter().map(|e| e.event.as_str()).collect()
}

fn payloads(events: &[StreamEvent]) -> Vec<Value> {
    events.iter().map(|e| json(&e.data)).collect()
}

fn feed(lines: &[&str]) -> Vec<StreamEvent> {
    let mut converter = OpenAIStreamConverter::new();
    let mut all = Vec::new();
    for line in lines {
        all.extend(converter.convert(line).unwrap().0);
    }
    all.extend(converter.flush());
    all
}

#[test]
fn events_are_written_in_full() {
    let all = feed(&[TEXT, STOP, USAGE, "[DONE]"]);
    let expected = [
        r#"{"message":{"content":[],"id":"c","model":"","role":"assistant","type":"message"},"type":"message_start"}"#,
        r#"{"content_block":{"text":"","type":"text"},"index":0,"type":"content_block_start"}"#,
        r#"{"delta":{"text":"hello ","type":"text_delta"},"index":0,"type":"content_block_delta"}"#,
        r#"{"index":0,"type":"content_block_stop"}"#,
        r#"{"delta":{"stop_reason":"end_turn"},"type":"message_delta","usage":{"input_tokens":1,"output_tokens":2.5}}"#,
        r#"{"type":"message_stop"}"#,
    ];
    assert_eq!(all.iter().map(|e| e.data.as_str()).collect::<Vec<_>>(), expected);
}

#[test]
fn text_and_thinking_are_passed_on_in_order() {
    let all = feed(&[TEXT, THINK, MORE, STOP]);
    let text: String = payloads(&all)
        .iter()
        .filter_map(|p| p["delta"]["text"].as_str().map(|s| s.to_string()))
        .collect();
    let thinking: String = payloads(&all)
        .iter()
        .filter_map(|p| p["delta"]["thinking"].as_str().map(|s| s.to_string()))
        .collect();
    assert_eq!(text, "hello world");
    assert_eq!(thinking, "hm");
    assert_eq!(names(&all).iter().filter(|n| **n == "message_start").count(), 1);
    assert_eq!(names(&all)[0], "message_start");
}

#[test]
fn line_that_cannot_be_read_changes_nothing() {
    let mut converter = OpenAIStreamConverter::new();
    converter.convert(TEXT).unwrap();
    let error = converter.convert("not json").unwrap_err();
    assert!(error.message().starts_with("parse openai stream chunk: "), "{}", error.message());
    let error = converter.convert(r#"{"choices":[{"delta":null}],"usage":{"prompt_tokens":9}}"#);
    assert_eq!(
        error.unwrap_err().message(),
        "parse openai stream chunk: invalid type: null, expected struct OpenAIStreamDelta"
    );
    let error = converter.convert("7").unwrap_err();
    assert_eq!(
        error.message(),
        "parse openai stream chunk: invalid type: integer `7`, expected struct OpenAIStreamChunk"
    );
    for (line, complaint) in [
        (r#"{"id":5,"choices":[{"index":true,"delta":[7]}]}"#, "integer `7`, expected a string"),
        (r#"{"object":5,"id":[]}"#, "sequence, expected a string"),
        (r#"{"choices":[{"index":1.5}]}"#, "floating point `1.5`, expected i64"),
        (r#"{"choices":[{"delta":{"tool_calls":{}}}]}"#, "map, expected a sequence"),
        (r#"{"choices":[{"index":"a\"b"}]}"#, "string \"a\\\"b\", expected i64"),
        (r#"{"choices":[{"finish_reason":false}]}"#, "boolean `false`, expected a string"),
    ] {
        let error = converter.convert(line).unwrap_err();
        assert_eq!(error.message(), format!("parse openai stream chunk: invalid type: {complaint}"));
    }
    let error = converter.convert(r#"{"choices":[{"index":9223372036854775808}]}"#).unwrap_err();
    assert_eq!(
        error.message(),
        "parse openai stream chunk: invalid value: integer `9223372036854775808`, expected i64"
    );
    let (events, _) = converter.convert(MORE).unwrap();
    assert_eq!(names(&events), ["content_block_delta"]);
    let (events, _) = converter.convert(STOP).unwrap();
    assert_eq!(names(&events), ["content_block_stop"]);
}

#[test]
fn frame_may_be_an_array() {
    let mut converter = OpenAIStreamConverter::new();
    let frame = r#"["c","o",[[0,[null,"hi"]]],{"prompt_tokens":1}]"#;
    let (events, done) = converter.convert(frame).unwrap();
    assert!(!done);
    assert_eq!(names(&events), ["message_start", "content_block_start", "content_block_delta"]);
    let (events, _) = converter.convert(STOP).unwrap();
    assert_eq!(names(&events), ["content_block_stop"]);
    assert!(converter.convert(r#"["c","o",[],{"prompt_tokens":"x"}]"#).is_err());
    assert!(converter.convert(r#"["c","o",[],null,5]"#).is_err());
}

#[test]
fn usage_does_not_decide_whether_a_frame_is_read() {
    let mut converter = OpenAIStreamConverter::new();
    let frame = r#"{"id":"c","choices":[{"delta":{"content":"hi"}}],"usage":{"prompt_tokens":"x","total_tokens":{}}}"#;
    assert_eq!(converter.convert(frame).unwrap().0.len(), 3);
    let (events, _) = converter.convert(STOP).unwrap();
    assert_eq!(names(&events), ["content_block_stop", "message_delta", "message_stop"]);
    assert_eq!(payloads(&events)[1]["usage"], json("{}"));
}

#[test]
fn usage_is_read_as_it_stands() {
    let usage = read_stream_usage(Some(&json(
        r#"{"prompt_tokens":18446744073709551615,"completion_tokens":1e3}"#,
    )))
    .unwrap();
    assert_eq!(
        usage.to_json().to_string(),
        r#"{"input_tokens":18446744073709551615,"output_tokens":1000.0}"#
    );
    assert!(read_stream_usage(None).is_none());
    assert!(read_stream_usage(Some(&Value::Null)).is_none());
    assert!(read_stream_usage(Some(&json("[1]"))).is_none());
}

#[test]
fn closed_stream_is_silent() {
    let mut converter = OpenAIStreamConverter::new();
    for line in [TEXT, STOP, USAGE] {
        converter.convert(line).unwrap();
    }
    for line in [USAGE, STOP, "[DONE]", "{}"] {
        assert!(converter.convert(line).unwrap().0.is_empty(), "{line}");
    }
    assert!(converter.flush().is_empty());
}

#[test]
fn stream_of_nothing_tells_nothing() {
    assert!(feed(&["{}", USAGE, "[DONE]"]).is_empty());
    assert!(feed(&[]).is_empty());
}

#[test]
fn stream_that_was_cut_off_gets_no_end() {
    assert_eq!(
        names(&feed(&[THINK, TEXT])),
        [
            "message_start",
            "content_block_start",
            "content_block_delta",
            "content_block_stop",
            "content_block_start",
            "content_block_delta",
        ]
    );
}

#[test]
fn reasoning_after_its_block_goes_to_that_block() {
    let all = feed(&[THINK, TEXT, THINK]);
    let last = payloads(&all).pop().unwrap();
    assert_eq!(last["index"], json("0"));
    assert_eq!(last["delta"]["type"], json("\"thinking_delta\""));
}

fn call(index: Option<i64>, id: Option<&str>, name: Option<&str>, args: &str) -> OpenAIStreamToolCall {
    OpenAIStreamToolCall {
        index,
        id: id.map(|s| s.to_string()),
        kind: None,
        function: OpenAIFunctionCall {
            name: name.map(|s| s.to_string()),
            arguments: args.to_string(),
        },
    }
}

fn chunk(calls: Vec<OpenAIStreamToolCall>, finish_reason: Option<&str>) -> OpenAIStreamChunk {
    OpenAIStreamChunk {
        id: "c".to_string(),
        choices: vec![OpenAIStreamChoice {
            delta: OpenAIStreamDelta { tool_calls: Some(calls), ..Default::default() },
            finish_reason: finish_reason.map(|s| s.to_string()),
            ..Default::default()
        }],
        ..Default::default()
    }
}

fn inputs(events: &[StreamEvent]) -> Vec<(i64, String)> {
    payloads(events)
        .iter()
        .filter(|p| p["delta"]["type"] == json("\"input_json_delta\""))
        .map(|p| {
            (p["index"].as_i64().unwrap(), p["delta"]["partial_json"].as_str().unwrap().to_string())
        })
        .collect()
}

#[test]
fn pieces_of_two_calls_may_alternate() {
    let mut converter = OpenAIStreamConverter::default();
    let mut all = Vec::new();
    for calls in [
        vec![call(Some(0), Some("a"), Some("f"), "{"), call(Some(1), Some("b"), Some("g"), "[")],
        vec![call(Some(1), None, None, "1"), call(Some(0), None, None, "\"x\"")],
        vec![call(None, None, None, ":2}"), call(Some(1), None, None, "[1]")],
    ] {
        all.extend(converter.convert_chunk(&chunk(calls, None), None));
    }
    let pieces = inputs(&all);
    let of = |index: i64| -> String {
        pieces.iter().filter(|(i, _)| *i == index).map(|(_, s)| s.as_str()).collect()
    };
    assert_eq!(of(0), "{\"x\":2}");
    assert_eq!(of(1), "[1]");
}

#[test]
fn call_without_index_and_id_is_the_first() {
    let mut converter = OpenAIStreamConverter::new();
    let all = converter.convert_chunk(
        &chunk(vec![call(None, Some(""), None, "1"), call(Some(0), None, None, "2")], None),
        None,
    );
    assert_eq!(inputs(&all), [(0, "1".to_string()), (0, "2".to_string())]);
    let start = payloads(&all).into_iter().find(|p| p["type"] == json("\"content_block_start\""));
    assert_eq!(start.unwrap()["content_block"], json(r#"{"type":"tool_use","id":"","input":{}}"#));
}

#[test]
fn id_and_index_are_different_keys() {
    let mut converter = OpenAIStreamConverter::new();
    let all = converter.convert_chunk(
        &chunk(vec![call(Some(0), None, None, "1"), call(None, Some("0"), None, "2")], None),
        None,
    );
    assert_eq!(inputs(&all), [(0, "1".to_string()), (1, "2".to_string())]);
}

#[test]
fn same_arguments_again_are_a_piece() {
    let mut converter = OpenAIStreamConverter::new();
    let all = converter.convert_chunk(
        &chunk(vec![call(Some(0), None, None, "ab"), call(Some(0), None, None, "ab")], None),
        None,
    );
    assert_eq!(inputs(&all), [(0, "ab".to_string()), (0, "ab".to_string())]);
}

#[test]
fn usage_of_a_chunk_ends_a_message_that_waits() {
    let mut converter = OpenAIStreamConverter::new();
    let events = converter.convert_chunk(&chunk(vec![call(Some(0), None, None, "")], Some("tool_calls")), None);
    assert_eq!(names(&events), ["message_start", "content_block_start", "content_block_stop"]);
    let usage = StreamMessageUsage { input_tokens: None, output_tokens: None };
    let events = converter.convert_chunk(&OpenAIStreamChunk::default(), Some(usage));
    assert_eq!(names(&events), ["message_delta", "message_stop"]);
    assert_eq!(payloads(&events)[0]["delta"]["stop_reason"], json("\"tool_use\""));
    assert_eq!(payloads(&events)[0]["usage"], json("{}"));
}

#[test]
fn lines_that_cannot_be_read_leave_no_trace() {
    let mut clean = OpenAIStreamConverter::new();
    let mut disturbed = OpenAIStreamConverter::new();
    for line in [THINK, TEXT, MORE, STOP, USAGE, "[DONE]"] {
        assert!(disturbed.convert("{").is_err());
        assert!(disturbed.convert(r#"{"choices":[5]}"#).is_err());
        let (a, _) = clean.convert(line).unwrap();
        let (b, _) = disturbed.convert(line).unwrap();
        assert_eq!(
            a.iter().map(|e| e.data.as_str()).collect::<Vec<_>>(),
            b.iter().map(|e| e.data.as_str()).collect::<Vec<_>>()
        );
    }
    assert!(clean.flush().is_empty());
    assert!(disturbed.flush().is_empty());
}

#[test]
fn piece_of_an_open_call_is_told_once_of_its_block() {
    let mut converter = OpenAIStreamConverter::new();
    converter.convert(TEXT).unwrap();
    converter.convert_chunk(&chunk(vec![call(Some(0), Some("a"), Some("f"), "")], None), None);
    converter.convert_chunk(&chunk(vec![call(Some(1), Some("b"), Some("g"), "")], None), None);
    let mut told = |args: &str| {
        let out = converter.convert_chunk(&chunk(vec![call(Some(1), None, None, args)], None), None);
        inputs(&out)
    };
    assert_eq!(told("{\"x\""), [(2, "{\"x\"".to_string())]);
    assert_eq!(told("{\"x\":1}"), [(2, ":1}".to_string())]);
    assert_eq!(told("{\"x\":1}"), [(2, "{\"x\":1}".to_string())]);
}

#[test]
fn bare_piece_goes_to_the_last_call() {
    let mut converter = OpenAIStreamConverter::new();
    converter.convert_chunk(&chunk(vec![call(Some(4), Some("a"), Some("f"), "")], None), None);
    converter.convert_chunk(&chunk(vec![call(None, Some("b"), Some("g"), "")], None), None);
    converter.convert(TEXT).unwrap();
    let out = converter.convert_chunk(&chunk(vec![call(None, None, None, "{}")], None), None);
    assert_eq!(inputs(&out), [(1, "{}".to_string())]);
}

#[test]
fn every_block_is_stopped_once_in_its_turn() {
    let mut converter = OpenAIStreamConverter::new();
    let mut all = converter.convert(THINK).unwrap().0;
    all.extend(converter.convert(TEXT).unwrap().0);
    all.extend(converter.convert_chunk(
        &chunk(vec![call(Some(0), Some("a"), None, "{}"), call(Some(1), Some("b"), None, "{}")], None),
        None,
    ));
    all.extend(converter.convert(MORE).unwrap().0);
    all.extend(converter.convert("[DONE]").unwrap().0);
    all.extend(converter.convert("[DONE]").unwrap().0);
    let told = payloads(&all);
    let indexes = |kind: &str| -> Vec<i64> {
        told.iter().filter(|p| p["type"] == kind).map(|p| p["index"].as_i64().unwrap()).collect()
    };
    assert_eq!(indexes("content_block_start"), [0, 1, 2, 3, 4]);
    assert_eq!(indexes("content_block_stop"), [0, 1, 4, 2, 3]);
}
