//! Requests, answers and streams in the OpenAI dialect.
use acosmi::models::adapters::openai::request::build_request_body;
use acosmi::models::adapters::openai::response::parse_openai_response_to_anthropic;
use acosmi::models::adapters::openai::response::parse_response;
use acosmi::models::adapters::openai::response::parse_stream_line;
use acosmi::models::adapters::openai::stream::new_openai_stream_converter;
use acosmi::models::types::ChatMessage;
use acosmi::models::types::ChatRequest;
use acosmi::models::types::ChatResponse;
use acosmi::models::types::EffortConfig;
use acosmi::models::types::ModelCapabilities;
use acosmi::models::types::StreamEvent;
use serde_json::Value;
use std::collections::HashMap;

fn string(s: &str) -> Value {
    Value::String(s.to_string())
}

fn object(members: Vec<(&str, Value)>) -> Value {
    Value::Object(members.into_iter().map(|(name, value)| (name.to_string(), value)).collect())
}

fn caps() -> ModelCapabilities {
    ModelCapabilities::default()
}

#[test]
fn build_request_body_openai_wire_fields() {
    let req = ChatRequest {
        messages: Some(vec![ChatMessage {
            role: "user".to_string(),
            content: "hi".to_string(),
        }]),
        stream: Some(true),
        max_tokens: Some(64),
        parallel_tool_calls: Some(false),
        end_user_id: Some("u-9".to_string()),
        effort: Some(EffortConfig {
            level: "high".to_string(),
        }),
        ..Default::default()
    };
    let body = build_request_body(&caps(), &req);
    assert_eq!(body["parallel_tool_calls"], Value::Bool(false));
    assert_eq!(body["user_id"], string("u-9"));
    assert_eq!(body["reasoning_effort"], string("high"));
    assert_eq!(body["stream_options"], object(vec![("include_usage", Value::Bool(true))]));
    assert!(body.get("betas").is_none());
}

#[test]
fn end_user_id_wins_over_extra_body_user_id() {
    let mut extra = serde_json::Map::new();
    extra.insert("user_id".to_string(), string("from-extra"));
    let req = ChatRequest {
        extra_body: Some(extra),
        end_user_id: Some("explicit".to_string()),
        ..Default::default()
    };
    let body = build_request_body(&caps(), &req);
    assert_eq!(body["user_id"], string("explicit"));
}

#[test]
fn parse_stream_line_done_and_invalid() {
    let (_, done) = parse_stream_line("", "[DONE]").unwrap();
    assert!(done);
    let (ev, d) = parse_stream_line("message", "{}").unwrap();
    assert!(!d);
    assert_eq!(ev.event, "message");
    assert!(parse_stream_line("message", "not json").is_err());
}

#[test]
fn convert_openai_to_chat_response_maps_finish_reason() {
    let body = br#"{"id":"c1","object":"chat.completion","model":"m","choices":[{"index":0,"message":{"role":"assistant","content":"hello"},"finish_reason":"stop"}],"usage":{"prompt_tokens":3,"completion_tokens":5,"total_tokens":8}}"#;
    let resp = parse_response(body).unwrap();
    assert_eq!(resp.stop_reason, "end_turn");
    assert_eq!(resp.content.len(), 1);
    assert_eq!(resp.content[0].kind, "text");
    assert_eq!(resp.usage.input_tokens, 3);
    assert_eq!(resp.token_remaining, -1);
}

#[test]
fn stream_converter_emits_message_start_then_done() {
    let mut conv = new_openai_stream_converter();
    let chunk = r#"{"id":"c","object":"chat.completion.chunk","choices":[{"index":0,"delta":{"content":"hi"},"finish_reason":null}]}"#;
    let (events, done) = conv.convert(chunk).unwrap();
    assert!(!done);
    assert_eq!(events[0].event, "message_start");
    assert!(events.iter().any(|e| e.event == "content_block_delta"));
    let (_, d) = conv.convert("[DONE]").unwrap();
    assert!(d);
}

const USAGE_TAIL_FRAME: &str = r#"{"choices":[],"usage":{"prompt_tokens":13171,"completion_tokens":16,"total_tokens":13187,"completion_tokens_details":{"reasoning_tokens":14},"prompt_tokens_details":{"cached_tokens":13056}}}"#;

const GATEWAY_FAILED_FRAME: &str = r#"{"type":"managed_model_stream_failed","protocol":"managed-model.v2","stage":"provider","error":"gateway: tools[0].type:type cannot be empty. (kind=invalid_request, status=400)","errorCode":"invalid_request","errorContractVersion":1,"faultDomain":"provider","message":"","requestDisposition":"unknown","retryable":false,"requestId":"req-0001","consumeRequestId":"req-0001","providerRequestId":"prov-0001","transportRequestId":"trans-0001"}"#;

type Parsed = Vec<(String, Value)>;

fn content_chunk(text: &str) -> String {
    object(vec![("id", string("c1")), ("object", string("chat.completion.chunk")), ("choices", Value::Array(vec![object(vec![("index", Value::from(0)), ("delta", object(vec![("content", Value::from(text.clone()))])), ("finish_reason", Value::Null)])]))])
    .to_string()
}

fn finish_chunk(reason: &str, usage: Option<Value>) -> String {
    let mut chunk = object(vec![("id", string("c1")), ("object", string("chat.completion.chunk")), ("choices", Value::Array(vec![object(vec![("index", Value::from(0)), ("delta", object(vec![])), ("finish_reason", Value::from(reason.clone()))])]))]);
    if let Some(usage) = usage {
        chunk["usage"] = usage;
    }
    chunk.to_string()
}

fn parse_events(events: &[StreamEvent]) -> Parsed {
    events
        .iter()
        .map(|e| (e.event.clone(), serde_json::from_str(&e.data).unwrap()))
        .collect()
}

fn event_names(events: &[(String, Value)]) -> Vec<&str> {
    events.iter().map(|(name, _)| name.as_str()).collect()
}

fn count_events(events: &[(String, Value)], name: &str) -> usize {
    events.iter().filter(|(n, _)| n == name).count()
}

fn feed(frames: &[&str]) -> (Vec<Vec<String>>, Parsed) {
    let mut conv = new_openai_stream_converter();
    let mut steps = Vec::new();
    let mut all = Vec::new();
    for frame in frames {
        let parsed = parse_events(&conv.convert(frame).unwrap().0);
        steps.push(parsed.iter().map(|(name, _)| name.clone()).collect());
        all.extend(parsed);
    }
    (steps, all)
}

fn expect_single_close_at_end(all: &[(String, Value)]) -> &Value {
    let names = event_names(all);
    assert_eq!(count_events(all, "message_delta"), 1, "{names:?}");
    assert_eq!(count_events(all, "message_stop"), 1, "{names:?}");
    let stop_at = names.iter().position(|n| *n == "message_stop").unwrap();
    assert_eq!(stop_at, names.len() - 1, "{names:?}");
    assert_eq!(names[stop_at - 1], "message_delta", "{names:?}");
    &all[stop_at - 1].1
}

#[test]
fn usage_tail_after_finish_reason_defers_close_to_tail_frame() {
    let (steps, all) = feed(&[
        &content_chunk("PONG"),
        &finish_chunk("stop", None),
        USAGE_TAIL_FRAME,
        "[DONE]",
    ]);
    assert_eq!(steps[1], ["content_block_stop"]);
    assert_eq!(steps[2], ["message_delta", "message_stop"]);
    assert!(steps[3].is_empty());
    assert_eq!(count_events(&all, "content_block_stop"), 1);
    let delta = expect_single_close_at_end(&all);
    assert_eq!(delta["delta"], object(vec![("stop_reason", string("end_turn"))]));
    assert_eq!(
        delta["usage"],
        object(vec![("input_tokens", Value::from(13171)), ("output_tokens", Value::from(16))])
    );
}

#[test]
fn usage_in_finish_reason_frame_closes_in_that_frame() {
    let finish = finish_chunk(
        "length",
        Some(object(vec![("prompt_tokens", Value::from(20)), ("completion_tokens", Value::from(3)), ("total_tokens", Value::from(23))])),
    );
    let (steps, all) = feed(&[&content_chunk("PONG"), &finish, "[DONE]"]);
    assert_eq!(
        steps[1],
        ["content_block_stop", "message_delta", "message_stop"]
    );
    assert!(steps[2].is_empty());
    let delta = expect_single_close_at_end(&all);
    assert_eq!(delta["delta"], object(vec![("stop_reason", string("max_tokens"))]));
    assert_eq!(
        delta["usage"],
        object(vec![("input_tokens", Value::from(20)), ("output_tokens", Value::from(3))])
    );
}

#[test]
fn usage_on_choices_frame_during_deferral_closes_in_that_frame() {
    let usage_frame = object(vec![("id", string("c1")), ("choices", Value::Array(vec![object(vec![("index", Value::from(0)), ("delta", object(vec![])), ("finish_reason", Value::Null)])])), ("usage", object(vec![("prompt_tokens", Value::from(30)), ("completion_tokens", Value::from(4)), ("total_tokens", Value::from(34))]))])
    .to_string();
    let (steps, all) = feed(&[
        &content_chunk("PONG"),
        &finish_chunk("stop", None),
        &usage_frame,
        "[DONE]",
    ]);
    assert_eq!(steps[1], ["content_block_stop"]);
    assert_eq!(steps[2], ["message_delta", "message_stop"]);
    assert!(steps[3].is_empty());
    let delta = expect_single_close_at_end(&all);
    assert_eq!(
        delta["usage"],
        object(vec![("input_tokens", Value::from(30)), ("output_tokens", Value::from(4))])
    );
}

#[test]
fn usage_before_finish_reason_closes_at_finish_with_latest_usage() {
    let content_with_usage = |text: &str, completion_tokens: i64| {
        object(vec![("id", string("c1")), ("choices", Value::Array(vec![object(vec![("index", Value::from(0)), ("delta", object(vec![("content", Value::from(text.clone()))])), ("finish_reason", Value::Null)])])), ("usage", object(vec![("prompt_tokens", Value::from(7)), ("completion_tokens", Value::from(completion_tokens.clone()))]))])
        .to_string()
    };
    let (steps, all) = feed(&[
        &content_with_usage("PO", 1),
        &content_with_usage("NG", 2),
        &finish_chunk("stop", None),
        "[DONE]",
    ]);
    assert_eq!(
        steps[2],
        ["content_block_stop", "message_delta", "message_stop"]
    );
    let delta = expect_single_close_at_end(&all);
    assert_eq!(
        delta["usage"],
        object(vec![("input_tokens", Value::from(7)), ("output_tokens", Value::from(2))])
    );
}

#[test]
fn finish_reason_without_usage_closes_at_done_without_usage_key() {
    let (steps, all) = feed(&[
        &content_chunk("PONG"),
        &finish_chunk("stop", None),
        "[DONE]",
    ]);
    assert_eq!(steps[1], ["content_block_stop"]);
    assert_eq!(steps[2], ["message_delta", "message_stop"]);
    let delta = expect_single_close_at_end(&all);
    assert_eq!(delta["delta"], object(vec![("stop_reason", string("end_turn"))]));
    assert!(delta.get("usage").is_none());
}

#[test]
fn only_first_finish_reason_counts() {
    let (steps, all) = feed(&[
        &content_chunk("PONG"),
        &finish_chunk("length", None),
        &finish_chunk("stop", None),
        USAGE_TAIL_FRAME,
        "[DONE]",
    ]);
    assert!(steps[2].is_empty());
    assert_eq!(steps[3], ["message_delta", "message_stop"]);
    assert_eq!(count_events(&all, "content_block_stop"), 1);
    let delta = expect_single_close_at_end(&all);
    assert_eq!(delta["delta"], object(vec![("stop_reason", string("max_tokens"))]));

    let finish_with_usage = finish_chunk(
        "stop",
        Some(object(vec![("prompt_tokens", Value::from(1)), ("completion_tokens", Value::from(1))])),
    );
    let (steps, _) = feed(&[
        &content_chunk("PONG"),
        &finish_with_usage,
        &finish_chunk("length", None),
    ]);
    assert_eq!(
        steps[1],
        ["content_block_stop", "message_delta", "message_stop"]
    );
    assert!(steps[2].is_empty());
}

#[test]
fn flush_emits_deferred_close_at_eof_exactly_once() {
    let mut conv = new_openai_stream_converter();
    let mut all = parse_events(&conv.convert(&content_chunk("PONG")).unwrap().0);
    all.extend(parse_events(
        &conv.convert(&finish_chunk("stop", None)).unwrap().0,
    ));
    let flushed = parse_events(&conv.flush());
    assert_eq!(event_names(&flushed), ["message_delta", "message_stop"]);
    all.extend(flushed);
    assert!(conv.flush().is_empty());
    let delta = expect_single_close_at_end(&all);
    assert!(delta.get("usage").is_none());
}

#[test]
fn flush_after_usage_tail_close_is_empty() {
    let mut conv = new_openai_stream_converter();
    conv.convert(&content_chunk("PONG")).unwrap();
    conv.convert(&finish_chunk("stop", None)).unwrap();
    let tail = parse_events(&conv.convert(USAGE_TAIL_FRAME).unwrap().0);
    assert_eq!(event_names(&tail), ["message_delta", "message_stop"]);
    assert!(conv.flush().is_empty());
}

#[test]
fn flush_does_not_fake_normal_end_for_truncated_stream() {
    let mut conv = new_openai_stream_converter();
    let opened = parse_events(&conv.convert(&content_chunk("PART")).unwrap().0);
    assert_eq!(
        event_names(&opened),
        [
            "message_start",
            "content_block_start",
            "content_block_delta"
        ]
    );
    assert!(conv.flush().is_empty());
}

#[test]
fn frames_without_choices_or_usage_emit_nothing_and_do_not_close_early() {
    let mut conv = new_openai_stream_converter();
    let no_choices_no_usage = r#"{"type":"managed_model_stream_failed","message":""}"#;
    let empty_choices_null_usage = r#"{"id":"c1","choices":[],"usage":null}"#;

    assert!(conv.convert(no_choices_no_usage).unwrap().0.is_empty());
    conv.convert(&content_chunk("PONG")).unwrap();
    let at_finish = parse_events(&conv.convert(&finish_chunk("stop", None)).unwrap().0);
    assert_eq!(event_names(&at_finish), ["content_block_stop"]);
    assert!(conv.convert(no_choices_no_usage).unwrap().0.is_empty());
    assert!(conv.convert(empty_choices_null_usage).unwrap().0.is_empty());

    let (end, done) = conv.convert("[DONE]").unwrap();
    assert!(done);
    let end = parse_events(&end);
    assert_eq!(event_names(&end), ["message_delta", "message_stop"]);
    assert!(end[0].1.get("usage").is_none());
}

#[test]
fn usage_frame_without_choices_key_closes_deferred_message() {
    let bare_usage = r#"{"usage":{"prompt_tokens":5,"completion_tokens":6}}"#;
    let (steps, all) = feed(&[
        &content_chunk("PONG"),
        &finish_chunk("stop", None),
        bare_usage,
        "[DONE]",
    ]);
    assert_eq!(steps[2], ["message_delta", "message_stop"]);
    assert!(steps[3].is_empty());
    let delta = expect_single_close_at_end(&all);
    assert_eq!(
        delta["usage"],
        object(vec![("input_tokens", Value::from(5)), ("output_tokens", Value::from(6))])
    );
}

#[test]
fn cached_and_reasoning_details_are_neither_mapped_nor_netted() {
    let (_, all) = feed(&[
        &content_chunk("PONG"),
        &finish_chunk("stop", None),
        USAGE_TAIL_FRAME,
        "[DONE]",
    ]);
    let usage = expect_single_close_at_end(&all)["usage"]
        .as_object()
        .unwrap();
    let mut keys: Vec<&str> = usage.keys().map(String::as_str).collect();
    keys.sort_unstable();
    assert_eq!(keys, ["input_tokens", "output_tokens"]);
    assert!(!usage.contains_key("cache_read_input_tokens"));
    assert_eq!(usage["input_tokens"], Value::from(13171));
}

#[test]
fn missing_or_non_numeric_counts_are_omitted_not_zero() {
    let usage_of = |usage: Value| {
        let tail = object(vec![("choices", Value::Array(vec![])), ("usage", Value::from(usage.clone()))]).to_string();
        let (_, all) = feed(&[
            &content_chunk("PONG"),
            &finish_chunk("stop", None),
            &tail,
            "[DONE]",
        ]);
        expect_single_close_at_end(&all)["usage"].clone()
    };
    assert_eq!(
        usage_of(object(vec![("prompt_tokens", Value::Null), ("completion_tokens", Value::from(16))])),
        object(vec![("output_tokens", Value::from(16))])
    );
    assert_eq!(
        usage_of(object(vec![("prompt_tokens", Value::from(12)), ("completion_tokens", string("16"))])),
        object(vec![("input_tokens", Value::from(12))])
    );
}

#[test]
fn non_object_usage_is_not_usage() {
    for usage in [Value::Array(vec![Value::from(13171), Value::from(16)]), Value::from(29)] {
        let tail = object(vec![("choices", Value::Array(vec![])), ("usage", Value::from(usage.clone()))]).to_string();
        let (steps, all) = feed(&[
            &content_chunk("PONG"),
            &finish_chunk("stop", None),
            &tail,
            "[DONE]",
        ]);
        assert!(steps[2].is_empty(), "{usage}");
        assert_eq!(steps[3], ["message_delta", "message_stop"], "{usage}");
        assert!(
            expect_single_close_at_end(&all).get("usage").is_none(),
            "{usage}"
        );
    }
}

#[test]
fn gateway_error_frame_without_choices_parses_to_zero_events() {
    let mut conv = new_openai_stream_converter();
    assert!(conv.convert(GATEWAY_FAILED_FRAME).unwrap().0.is_empty());
    assert!(conv.convert(GATEWAY_FAILED_FRAME).unwrap().0.is_empty());
    let usage_only = r#"{"id":"c1","object":"chat.completion.chunk","choices":[],"usage":{"prompt_tokens":1,"completion_tokens":1,"total_tokens":2}}"#;
    assert!(conv.convert(usage_only).unwrap().0.is_empty());
    conv.convert(&content_chunk("PONG")).unwrap();
    let end = parse_events(&conv.convert(&finish_chunk("stop", None)).unwrap().0);
    assert_eq!(
        event_names(&end),
        ["content_block_stop", "message_delta", "message_stop"]
    );
    assert_eq!(
        end[1].1["usage"],
        object(vec![("input_tokens", Value::from(1)), ("output_tokens", Value::from(1))])
    );
}

fn thinking_chunk(text: &str) -> String {
    object(vec![("id", string("c1")), ("choices", Value::Array(vec![object(vec![("index", Value::from(0)), ("delta", object(vec![("reasoning_content", Value::from(text.clone()))]))])]))])
        .to_string()
}

fn tool_call_chunk(index: i64, id: &str, name: &str, args: &str) -> String {
    object(vec![("id", string("c1")), ("choices", Value::Array(vec![object(vec![("index", Value::from(0)), ("delta", object(vec![("tool_calls", Value::Array(vec![object(vec![("index", Value::from(index.clone())), ("id", Value::from(id.clone())), ("function", object(vec![("name", Value::from(name.clone())), ("arguments", Value::from(args.clone()))]))])]))]))])]))])
    .to_string()
}

fn run_chunks(chunks: &[&str]) -> Parsed {
    let mut conv = new_openai_stream_converter();
    let mut all = Vec::new();
    for chunk in chunks {
        all.extend(parse_events(&conv.convert(chunk).unwrap().0));
    }
    all.extend(parse_events(&conv.flush()));
    all
}

fn assert_blocks_well_formed(events: &[(String, Value)]) -> HashMap<String, Vec<i64>> {
    let mut open: HashMap<i64, String> = HashMap::new();
    let mut type_of_index: HashMap<i64, String> = HashMap::new();
    let mut start_index_by_type: HashMap<String, Vec<i64>> = HashMap::new();
    for (name, payload) in events {
        match name.as_str() {
            "content_block_start" => {
                let index = payload["index"].as_i64().unwrap();
                let block_type = payload["content_block"]["type"]
                    .as_str()
                    .unwrap()
                    .to_string();
                if let Some(previous) = type_of_index.get(&index) {
                    assert_eq!(previous, &block_type, "index {index} has blocks of two kinds");
                }
                assert!(!open.contains_key(&index), "index {index} starts while open");
                open.insert(index, block_type.clone());
                type_of_index.insert(index, block_type.clone());
                start_index_by_type
                    .entry(block_type)
                    .or_default()
                    .push(index);
            }
            "content_block_stop" => {
                let index = payload["index"].as_i64().unwrap();
                assert!(
                    open.remove(&index).is_some(),
                    "index {index} stops while not open"
                );
            }
            "content_block_delta" => {
                let index = payload["index"].as_i64().unwrap();
                assert!(
                    open.contains_key(&index),
                    "index {index} grows while not open"
                );
            }
            _ => {}
        }
    }
    assert!(open.is_empty(), "still open: {open:?}");
    start_index_by_type
}

#[test]
fn thinking_then_tool_calls_do_not_share_an_index() {
    let events = run_chunks(&[
        &thinking_chunk("let me think"),
        &thinking_chunk(" more"),
        &tool_call_chunk(0, "call_1", "get_weather", r#"{"city":"#),
        &tool_call_chunk(0, "call_1", "get_weather", r#""sf"}"#),
        &finish_chunk("tool_calls", None),
    ]);
    let by_type = assert_blocks_well_formed(&events);
    assert_eq!(by_type["thinking"], [0]);
    assert_eq!(by_type["tool_use"], [1]);
    assert_eq!(
        events.last().map(|(name, _)| name.as_str()),
        Some("message_stop")
    );
}

#[test]
fn thinking_text_tool_take_sequential_indexes() {
    let events = run_chunks(&[
        &thinking_chunk("reasoning"),
        &content_chunk("hello"),
        &tool_call_chunk(0, "call_1", "fn", "{}"),
        &finish_chunk("tool_calls", None),
    ]);
    let by_type = assert_blocks_well_formed(&events);
    assert_eq!(by_type["thinking"], [0]);
    assert_eq!(by_type["text"], [1]);
    assert_eq!(by_type["tool_use"], [2]);
}

#[test]
fn text_only_block_pairs() {
    let events = run_chunks(&[
        &content_chunk("hi"),
        &content_chunk(" there"),
        &finish_chunk("stop", None),
    ]);
    let by_type = assert_blocks_well_formed(&events);
    assert_eq!(by_type["text"], [0]);
    assert!(!by_type.contains_key("thinking"));
}

#[test]
fn thinking_only_block_closes_at_its_own_index() {
    let events = run_chunks(&[&thinking_chunk("think"), &finish_chunk("stop", None)]);
    let by_type = assert_blocks_well_formed(&events);
    assert_eq!(by_type["thinking"], [0]);
}

#[test]
fn multiple_tool_calls_take_their_own_indexes() {
    let events = run_chunks(&[
        &thinking_chunk("plan"),
        &tool_call_chunk(0, "c0", "a", "{}"),
        &tool_call_chunk(1, "c1", "b", "{}"),
        &finish_chunk("tool_calls", None),
    ]);
    let by_type = assert_blocks_well_formed(&events);
    assert_eq!(by_type["thinking"], [0]);
    assert_eq!(by_type["tool_use"], [1, 2]);
}

#[test]
fn done_without_finish_reason_closes_blocks_and_ends_turn() {
    let mut conv = new_openai_stream_converter();
    let mut all = parse_events(
        &conv
            .convert(&tool_call_chunk(0, "call_1", "f", r#"{"a":1}"#))
            .unwrap()
            .0,
    );
    let (end, done) = conv.convert("[DONE]").unwrap();
    assert!(done);
    let end = parse_events(&end);
    assert_eq!(
        event_names(&end),
        ["content_block_stop", "message_delta", "message_stop"]
    );
    all.extend(end);
    assert_blocks_well_formed(&all);
    let delta = expect_single_close_at_end(&all);
    assert_eq!(delta["delta"], object(vec![("stop_reason", string("end_turn"))]));
}

#[test]
fn done_after_finish_reason_does_not_close_twice() {
    let (steps, all) = feed(&[
        &tool_call_chunk(0, "call_1", "f", r#"{"a":1}"#),
        &finish_chunk("tool_calls", None),
        "[DONE]",
    ]);
    assert_eq!(steps[2], ["message_delta", "message_stop"]);
    assert_blocks_well_formed(&all);
    let delta = expect_single_close_at_end(&all);
    assert_eq!(delta["delta"], object(vec![("stop_reason", string("tool_use"))]));
}

fn tool_first_chunk(index: i64, id: &str, name: &str) -> String {
    object(vec![("id", string("c1")), ("object", string("chat.completion.chunk")), ("choices", Value::Array(vec![object(vec![("index", Value::from(0)), ("delta", object(vec![("tool_calls", Value::Array(vec![object(vec![("index", Value::from(index.clone())), ("id", Value::from(id.clone())), ("type", string("function")), ("function", object(vec![("name", Value::from(name.clone())), ("arguments", string(""))]))])]))])), ("finish_reason", Value::Null)])]))])
    .to_string()
}

fn tool_arg_chunk(index: i64, args: Value) -> String {
    object(vec![("id", string("c1")), ("object", string("chat.completion.chunk")), ("choices", Value::Array(vec![object(vec![("index", Value::from(0)), ("delta", object(vec![("tool_calls", Value::Array(vec![object(vec![("index", Value::from(index.clone())), ("function", object(vec![("arguments", Value::from(args.clone()))]))])]))])), ("finish_reason", Value::Null)])]))])
    .to_string()
}

fn tool_hollow_chunk(index: i64) -> String {
    object(vec![("id", string("c1")), ("object", string("chat.completion.chunk")), ("choices", Value::Array(vec![object(vec![("index", Value::from(0)), ("delta", object(vec![("tool_calls", Value::Array(vec![object(vec![("index", Value::from(index.clone()))])]))])), ("finish_reason", Value::Null)])]))])
    .to_string()
}

fn tool_name_only_chunk(index: i64, name: &str) -> String {
    object(vec![("id", string("c1")), ("object", string("chat.completion.chunk")), ("choices", Value::Array(vec![object(vec![("index", Value::from(0)), ("delta", object(vec![("tool_calls", Value::Array(vec![object(vec![("index", Value::from(index.clone())), ("function", object(vec![("name", Value::from(name.clone()))]))])]))])), ("finish_reason", Value::Null)])]))])
    .to_string()
}

fn feed_results(frames: &[&str]) -> (Vec<std::result::Result<Parsed, String>>, Parsed) {
    let mut conv = new_openai_stream_converter();
    let mut steps = Vec::new();
    let mut all = Vec::new();
    for frame in frames {
        match conv.convert(frame) {
            Ok((events, _)) => {
                let parsed = parse_events(&events);
                all.extend(parsed.clone());
                steps.push(Ok(parsed));
            }
            Err(e) => steps.push(Err(e.message().to_string())),
        }
    }
    (steps, all)
}

fn step_errors(steps: &[std::result::Result<Parsed, String>]) -> Vec<&String> {
    steps.iter().filter_map(|s| s.as_ref().err()).collect()
}

fn partial_json_pieces(events: &Parsed) -> Vec<String> {
    events
        .iter()
        .filter(|(name, payload)| {
            name == "content_block_delta" && payload["delta"]["type"] == "input_json_delta"
        })
        .map(|(_, payload)| {
            payload["delta"]["partial_json"]
                .as_str()
                .unwrap_or_default()
                .to_string()
        })
        .collect()
}

#[test]
fn openai_spec_toolcall_continuation_frames_carry_no_name() {
    let (steps, all) = feed_results(&[
        &tool_first_chunk(0, "call_1", "get_weather"),
        &tool_arg_chunk(0, string(r#"{"city":"#)),
        &tool_arg_chunk(0, string(r#" "SF"}"#)),
        &finish_chunk("tool_calls", None),
        "[DONE]",
    ]);
    assert!(step_errors(&steps).is_empty(), "{:?}", step_errors(&steps));
    assert_eq!(partial_json_pieces(&all).concat(), r#"{"city": "SF"}"#);
    let by_type = assert_blocks_well_formed(&all);
    assert_eq!(by_type["tool_use"], [0]);
    assert_eq!(count_events(&all, "message_stop"), 1);
    let delta = expect_single_close_at_end(&all);
    assert_eq!(delta["delta"], object(vec![("stop_reason", string("tool_use"))]));
}

#[test]
fn toolcall_delta_without_function_emits_no_delta() {
    let (steps, all) = feed_results(&[
        &tool_first_chunk(0, "call_1", "get_weather"),
        &tool_hollow_chunk(0),
        &tool_name_only_chunk(0, "get_weather"),
        &tool_arg_chunk(0, string("{}")),
        &finish_chunk("tool_calls", None),
        "[DONE]",
    ]);
    assert!(step_errors(&steps).is_empty(), "{:?}", step_errors(&steps));
    assert_eq!(steps[1].as_ref().map(|p| event_names(p)), Ok(Vec::new()));
    assert_eq!(steps[2].as_ref().map(|p| event_names(p)), Ok(Vec::new()));
    assert_eq!(partial_json_pieces(&all), ["{}"]);
    assert_eq!(assert_blocks_well_formed(&all)["tool_use"], [0]);
}

#[test]
fn choice_without_index_is_not_a_stream_error() {
    let no_index = r#"{"id":"c1","choices":[{"delta":{"content":"hi"}}]}"#;
    let (steps, all) = feed_results(&[no_index, &finish_chunk("stop", None), "[DONE]"]);
    assert!(step_errors(&steps).is_empty(), "{:?}", step_errors(&steps));
    let texts: Vec<&str> = all
        .iter()
        .filter(|(name, p)| name == "content_block_delta" && p["delta"]["type"] == "text_delta")
        .map(|(_, p)| p["delta"]["text"].as_str().unwrap_or_default())
        .collect();
    assert_eq!(texts, ["hi"]);
    assert_eq!(assert_blocks_well_formed(&all)["text"], [0]);
}

#[test]
fn toolcall_arguments_object_is_stringified_not_rejected() {
    let (steps, all) = feed_results(&[
        &tool_first_chunk(0, "call_1", "get_weather"),
        &tool_arg_chunk(0, object(vec![("city", string("sf"))])),
        &finish_chunk("tool_calls", None),
        "[DONE]",
    ]);
    assert!(step_errors(&steps).is_empty(), "{:?}", step_errors(&steps));
    let joined = partial_json_pieces(&all).concat();
    assert!(!joined.contains("[object Object]"), "{joined}");
    assert_eq!(
        serde_json::from_str::<Value>(&joined).unwrap(),
        object(vec![("city", string("sf"))])
    );
}

#[test]
fn full_args_resend_upstream_yields_one_valid_json() {
    let (steps, all) = feed_results(&[
        &tool_first_chunk(0, "call_1", "f"),
        &tool_arg_chunk(0, string(r#"{"a":"#)),
        &tool_arg_chunk(0, string(r#"{"a":1"#)),
        &tool_arg_chunk(0, string(r#"{"a":1}"#)),
        &finish_chunk("tool_calls", None),
        "[DONE]",
    ]);
    assert!(step_errors(&steps).is_empty(), "{:?}", step_errors(&steps));
    let joined = partial_json_pieces(&all).concat();
    assert_eq!(joined, r#"{"a":1}"#);
    assert_eq!(
        serde_json::from_str::<Value>(&joined).unwrap(),
        object(vec![("a", Value::from(1))])
    );
}

#[test]
fn true_incremental_args_are_still_forwarded_piece_by_piece() {
    let (steps, all) = feed_results(&[
        &tool_first_chunk(0, "call_1", "f"),
        &tool_arg_chunk(0, string(r#"{"city":"#)),
        &tool_arg_chunk(0, string(r#""san francisco"}"#)),
        &finish_chunk("tool_calls", None),
        "[DONE]",
    ]);
    assert!(step_errors(&steps).is_empty(), "{:?}", step_errors(&steps));
    let pieces = partial_json_pieces(&all);
    assert_eq!(pieces, [r#"{"city":"#, r#""san francisco"}"#]);
    let joined = pieces.concat();
    assert_eq!(joined, r#"{"city":"san francisco"}"#);
    assert_eq!(
        serde_json::from_str::<Value>(&joined).unwrap(),
        object(vec![("city", string("san francisco"))])
    );
}

fn tool_call_chunk_without_index(id: &str, name: &str, args: &str) -> String {
    object(vec![("id", string("c1")), ("choices", Value::Array(vec![object(vec![("index", Value::from(0)), ("delta", object(vec![("tool_calls", Value::Array(vec![object(vec![("id", Value::from(id.clone())), ("type", string("function")), ("function", object(vec![("name", Value::from(name.clone())), ("arguments", Value::from(args.clone()))]))])]))]))])]))])
    .to_string()
}

fn tool_arg_chunk_anonymous(args: &str) -> String {
    object(vec![("id", string("c1")), ("choices", Value::Array(vec![object(vec![("index", Value::from(0)), ("delta", object(vec![("tool_calls", Value::Array(vec![object(vec![("function", object(vec![("arguments", Value::from(args.clone()))]))])]))]))])]))])
    .to_string()
}

fn tool_call_chunk_index_only(index: i64, args: &str) -> String {
    object(vec![("id", string("c1")), ("choices", Value::Array(vec![object(vec![("index", Value::from(0)), ("delta", object(vec![("tool_calls", Value::Array(vec![object(vec![("index", Value::from(index.clone())), ("function", object(vec![("arguments", Value::from(args.clone()))]))])]))]))])]))])
    .to_string()
}

fn tool_use_content_blocks(events: &Parsed) -> Vec<Value> {
    events
        .iter()
        .filter(|(name, p)| {
            name == "content_block_start" && p["content_block"]["type"] == "tool_use"
        })
        .map(|(_, p)| p["content_block"].clone())
        .collect()
}

fn partial_json_by_block(events: &Parsed) -> Vec<(i64, String)> {
    let mut out: Vec<(i64, String)> = Vec::new();
    for (name, payload) in events {
        if name != "content_block_delta" || payload["delta"]["type"] != "input_json_delta" {
            continue;
        }
        let index = payload["index"].as_i64().unwrap_or(-1);
        let piece = payload["delta"]["partial_json"]
            .as_str()
            .unwrap_or_default();
        match out.iter_mut().find(|(i, _)| *i == index) {
            Some(slot) => slot.1.push_str(piece),
            None => out.push((index, piece.to_string())),
        }
    }
    out
}

#[test]
fn two_index_less_toolcalls_do_not_share_a_block() {
    let (steps, all) = feed_results(&[
        &tool_call_chunk_without_index("call_1", "a", r#"{"x":1}"#),
        &tool_call_chunk_without_index("call_2", "b", r#"{"y":2}"#),
        &finish_chunk("tool_calls", None),
        "[DONE]",
    ]);
    assert!(step_errors(&steps).is_empty(), "{:?}", step_errors(&steps));
    let by_type = assert_blocks_well_formed(&all);
    assert_eq!(by_type["tool_use"], [0, 1]);
    let args = partial_json_by_block(&all);
    assert_eq!(
        args,
        [(0, r#"{"x":1}"#.to_string()), (1, r#"{"y":2}"#.to_string())]
    );
    for (_, piece) in &args {
        serde_json::from_str::<Value>(piece).expect("arguments must be JSON");
    }
    let blocks = tool_use_content_blocks(&all);
    assert_eq!(blocks[0]["id"], string("call_1"));
    assert_eq!(blocks[0]["name"], string("a"));
    assert_eq!(blocks[1]["id"], string("call_2"));
    assert_eq!(blocks[1]["name"], string("b"));
}

#[test]
fn two_indexed_toolcalls_still_take_their_own_blocks() {
    let (steps, all) = feed_results(&[
        &tool_call_chunk(0, "call_1", "a", r#"{"x":1}"#),
        &tool_call_chunk(1, "call_2", "b", r#"{"y":2}"#),
        &finish_chunk("tool_calls", None),
        "[DONE]",
    ]);
    assert!(step_errors(&steps).is_empty(), "{:?}", step_errors(&steps));
    assert_eq!(assert_blocks_well_formed(&all)["tool_use"], [0, 1]);
    assert_eq!(
        partial_json_by_block(&all),
        [(0, r#"{"x":1}"#.to_string()), (1, r#"{"y":2}"#.to_string())]
    );
}

#[test]
fn anonymous_continuation_fragments_stay_on_the_last_tool_key() {
    let (steps, all) = feed_results(&[
        &tool_call_chunk_without_index("call_1", "f", r#"{"a":"#),
        &tool_arg_chunk_anonymous("1}"),
        &finish_chunk("tool_calls", None),
        "[DONE]",
    ]);
    assert!(step_errors(&steps).is_empty(), "{:?}", step_errors(&steps));
    assert_eq!(assert_blocks_well_formed(&all)["tool_use"], [0]);
    assert_eq!(partial_json_by_block(&all), [(0, r#"{"a":1}"#.to_string())]);
}

#[test]
fn missing_id_and_name_keys_are_omitted_not_empty_strings() {
    let (steps, all) = feed_results(&[
        &tool_call_chunk_index_only(0, r#"{"a":1}"#),
        &finish_chunk("tool_calls", None),
        "[DONE]",
    ]);
    assert!(step_errors(&steps).is_empty(), "{:?}", step_errors(&steps));
    let blocks = tool_use_content_blocks(&all);
    assert_eq!(blocks.len(), 1);
    let block = blocks[0].as_object().expect("a block is an object");
    assert!(!block.contains_key("id"), "{block:?}");
    assert!(!block.contains_key("name"), "{block:?}");
    assert_eq!(block["type"], string("tool_use"));
    assert_eq!(block["input"], object(vec![]));
    assert!(!block.values().any(Value::is_null), "{block:?}");
}

#[test]
fn present_id_and_name_keys_are_written_through() {
    let (steps, all) = feed_results(&[
        &tool_first_chunk(0, "call_1", "get_weather"),
        &finish_chunk("tool_calls", None),
        "[DONE]",
    ]);
    assert!(step_errors(&steps).is_empty(), "{:?}", step_errors(&steps));
    let blocks = tool_use_content_blocks(&all);
    assert_eq!(blocks[0]["id"], string("call_1"));
    assert_eq!(blocks[0]["name"], string("get_weather"));
}

#[test]
fn text_then_thinking_do_not_share_an_index() {
    let events = run_chunks(&[
        &content_chunk("hello"),
        &thinking_chunk("thinking"),
        &finish_chunk("stop", None),
    ]);
    let by_type = assert_blocks_well_formed(&events);
    assert_eq!(by_type["text"], [0]);
    assert_eq!(by_type["thinking"], [1]);
    let thinking_delta_index = events
        .iter()
        .find(|(name, p)| {
            name == "content_block_delta" && p["delta"]["type"] == "thinking_delta"
        })
        .map(|(_, p)| p["index"].as_i64().unwrap_or(-1));
    assert_eq!(thinking_delta_index, Some(1));
}

#[test]
fn thinking_then_text_order_is_unchanged() {
    let events = run_chunks(&[
        &thinking_chunk("thinking"),
        &content_chunk("hello"),
        &finish_chunk("stop", None),
    ]);
    let by_type = assert_blocks_well_formed(&events);
    assert_eq!(by_type["thinking"], [0]);
    assert_eq!(by_type["text"], [1]);
}

#[test]
fn choice_without_delta_is_not_a_stream_error() {
    let bare_choice = r#"{"id":"c1","choices":[{"index":0}]}"#;
    let finish_without_delta = r#"{"id":"c1","choices":[{"index":0,"finish_reason":"stop"}]}"#;
    let (steps, all) = feed_results(&[
        &content_chunk("hi"),
        bare_choice,
        finish_without_delta,
        "[DONE]",
    ]);
    assert!(step_errors(&steps).is_empty(), "{:?}", step_errors(&steps));
    assert_eq!(steps[1].as_ref().map(|p| event_names(p)), Ok(Vec::new()));
    assert_blocks_well_formed(&all);
    let delta = expect_single_close_at_end(&all);
    assert_eq!(delta["delta"], object(vec![("stop_reason", string("end_turn"))]));
}

#[test]
fn choice_with_delta_still_emits_its_content() {
    let (steps, all) = feed_results(&[
        &content_chunk("hi"),
        &content_chunk(" there"),
        &finish_chunk("stop", None),
        "[DONE]",
    ]);
    assert!(step_errors(&steps).is_empty(), "{:?}", step_errors(&steps));
    let texts: Vec<&str> = all
        .iter()
        .filter(|(name, p)| name == "content_block_delta" && p["delta"]["type"] == "text_delta")
        .map(|(_, p)| p["delta"]["text"].as_str().unwrap_or_default())
        .collect();
    assert_eq!(texts, ["hi", " there"]);
}

fn stop_reason_for(reason: &str) -> String {
    let (steps, all) =
        feed_results(&[&content_chunk("hi"), &finish_chunk(reason, None), "[DONE]"]);
    assert!(step_errors(&steps).is_empty(), "{:?}", step_errors(&steps));
    expect_single_close_at_end(&all)["delta"]["stop_reason"]
        .as_str()
        .unwrap_or_default()
        .to_string()
}

#[test]
fn unlisted_finish_reason_is_passed_through() {
    assert_eq!(stop_reason_for("content_filter"), "content_filter");
    assert_eq!(stop_reason_for("function_call"), "function_call");
}

#[test]
fn listed_finish_reasons_still_map_to_anthropic_stop_reasons() {
    assert_eq!(stop_reason_for("stop"), "end_turn");
    assert_eq!(stop_reason_for("tool_calls"), "tool_use");
    assert_eq!(stop_reason_for("length"), "max_tokens");
}

#[test]
fn non_array_choices_yields_zero_events_not_a_stream_error() {
    let bogus = r#"{"id":"c1","choices":{"0":{"index":0,"delta":{"content":"x"}}}}"#;
    let (steps, all) = feed_results(&[
        &content_chunk("hi"),
        bogus,
        &finish_chunk("stop", None),
        "[DONE]",
    ]);
    assert!(step_errors(&steps).is_empty(), "{:?}", step_errors(&steps));
    assert_eq!(steps[1].as_ref().map(|p| event_names(p)), Ok(Vec::new()));
    assert_blocks_well_formed(&all);
    let delta = expect_single_close_at_end(&all);
    assert_eq!(delta["delta"], object(vec![("stop_reason", string("end_turn"))]));
}

const TOOLCALL_RESPONSE_CONTENT_NULL: &[u8] = br#"{"id":"c1","object":"chat.completion","model":"m","choices":[{"index":0,"message":{"role":"assistant","content":null,"tool_calls":[{"id":"call_1","type":"function","function":{"name":"get_weather","arguments":"{\"city\":\"SF\"}"}}]},"finish_reason":"tool_calls"}],"usage":{"prompt_tokens":1,"completion_tokens":2,"total_tokens":3}}"#;

const TOOLCALL_RESPONSE_CONTENT_ABSENT: &[u8] = br#"{"id":"c1","object":"chat.completion","model":"m","choices":[{"index":0,"message":{"role":"assistant","tool_calls":[{"id":"call_1","type":"function","function":{"name":"get_weather","arguments":"{\"city\":\"SF\"}"}}]},"finish_reason":"tool_calls"}],"usage":{"prompt_tokens":1,"completion_tokens":2,"total_tokens":3}}"#;

const TOOLCALL_RESPONSE_WITH_TEXT: &[u8] = br#"{"id":"c1","object":"chat.completion","model":"m","choices":[{"index":0,"message":{"role":"assistant","content":"let me check","tool_calls":[{"id":"call_1","type":"function","function":{"name":"get_weather","arguments":"{\"city\":\"SF\"}"}}]},"finish_reason":"tool_calls"}],"usage":{"prompt_tokens":1,"completion_tokens":2,"total_tokens":3}}"#;

fn block_types(resp: &ChatResponse) -> Vec<&str> {
    resp.content.iter().map(|b| b.kind.as_str()).collect()
}

#[test]
fn null_content_with_tool_calls_yields_tool_use_and_no_empty_text_block() {
    let resp = parse_response(TOOLCALL_RESPONSE_CONTENT_NULL).unwrap();
    assert_eq!(block_types(&resp), ["tool_use"]);
    assert_eq!(resp.content[0].id.as_deref(), Some("call_1"));
    assert_eq!(resp.content[0].name.as_deref(), Some("get_weather"));
    assert_eq!(resp.content[0].input, Some(object(vec![("city", string("SF"))])));
    assert_eq!(resp.stop_reason, "tool_use");

    let anthropic = parse_openai_response_to_anthropic(TOOLCALL_RESPONSE_CONTENT_NULL).unwrap();
    assert_eq!(
        anthropic
            .content
            .iter()
            .map(|b| b.kind.as_str())
            .collect::<Vec<_>>(),
        ["tool_use"]
    );

    let with_text = parse_response(TOOLCALL_RESPONSE_WITH_TEXT).unwrap();
    assert_eq!(block_types(&with_text), ["text", "tool_use"]);
    assert_eq!(with_text.content[0].text.as_deref(), Some("let me check"));
}

#[test]
fn absent_content_key_is_decoded_like_an_empty_one() {
    let resp = parse_response(TOOLCALL_RESPONSE_CONTENT_ABSENT).unwrap();
    assert_eq!(block_types(&resp), ["tool_use"]);
    assert_eq!(resp.content[0].name.as_deref(), Some("get_weather"));
    let anthropic =
        parse_openai_response_to_anthropic(TOOLCALL_RESPONSE_CONTENT_ABSENT).unwrap();
    assert_eq!(anthropic.content.len(), 1);
}

#[test]
fn missing_choices_response_yields_zero_blocks_not_a_decode_error() {
    let no_choices = br#"{"id":"c1","object":"chat.completion","model":"m","usage":{"prompt_tokens":3,"completion_tokens":5,"total_tokens":8}}"#;
    let resp = parse_response(no_choices).expect("missing choices must not fail the response");
    assert!(block_types(&resp).is_empty());
    assert_eq!(resp.id, "c1");
    assert_eq!(resp.model, "m");
    assert_eq!(resp.usage.input_tokens, 3);
    assert_eq!(resp.usage.output_tokens, 5);
    assert_eq!(resp.stop_reason, "");

    let anthropic = parse_openai_response_to_anthropic(no_choices)
        .expect("missing choices must not fail the anthropic projection");
    assert!(anthropic.content.is_empty());
    assert_eq!(anthropic.usage.input_tokens, 3);
}

#[test]
fn null_choices_response_yields_zero_blocks_not_a_decode_error() {
    let null_choices = br#"{"id":"c1","object":"chat.completion","model":"m","choices":null,"usage":{"prompt_tokens":3,"completion_tokens":5,"total_tokens":8}}"#;
    let resp = parse_response(null_choices).expect("null choices must not fail the response");
    assert!(block_types(&resp).is_empty());
    assert_eq!(resp.id, "c1");
    assert_eq!(resp.usage.input_tokens, 3);
    assert_eq!(resp.stop_reason, "");

    let anthropic = parse_openai_response_to_anthropic(null_choices)
        .expect("null choices must not fail the anthropic projection");
    assert!(anthropic.content.is_empty());
    assert_eq!(anthropic.usage.input_tokens, 3);
}

#[test]
fn present_choices_still_yield_content_blocks() {
    let resp =
        parse_response(TOOLCALL_RESPONSE_WITH_TEXT).expect("choices present must decode");
    assert_eq!(block_types(&resp), ["text", "tool_use"]);
    assert_eq!(resp.stop_reason, "tool_use");
    let anthropic = parse_openai_response_to_anthropic(TOOLCALL_RESPONSE_WITH_TEXT)
        .expect("choices present must decode");
    assert_eq!(anthropic.content.len(), 2);
}

#[test]
fn null_finish_reason_is_not_a_decode_failure() {
    let body = br#"{"id":"c1","object":"chat.completion","model":"m","choices":[{"index":0,"message":{"role":"assistant","content":"hi"},"finish_reason":null}],"usage":{"prompt_tokens":1,"completion_tokens":2,"total_tokens":3}}"#;
    let resp = parse_response(body).unwrap();
    assert_eq!(resp.stop_reason, "");
    assert_eq!(block_types(&resp), ["text"]);
    let stopped = br#"{"id":"c1","object":"chat.completion","model":"m","choices":[{"index":0,"message":{"role":"assistant","content":"hi"},"finish_reason":"stop"}],"usage":{"prompt_tokens":1,"completion_tokens":2,"total_tokens":3}}"#;
    assert_eq!(parse_response(stopped).unwrap().stop_reason, "end_turn");
}
