//! Reading the wire format.
use acosmi::models::wire_openai::OpenAIChatResponse;
use acosmi::models::wire_openai::OpenAIStreamChunk;
use acosmi::models::wire_openai::OpenAIStreamToolCall;
use acosmi::models::wire_openai::OpenAIStreamUsage;
use acosmi::shared::decode::FromJson;
use acosmi::shared::raw::FromText;

fn read<T: FromJson>(text: &str) -> Result<T, String> {
    T::from_value(&serde_json::from_str(text).unwrap())
}

fn read_response(text: &str) -> Result<OpenAIChatResponse, String> {
    let result = OpenAIChatResponse::read_text(text);
    let again = read::<OpenAIChatResponse>(text);
    assert_eq!(result.is_ok(), again.is_ok());
    result
}

#[test]
fn stream_usage_type_accepts_partial_counts() {
    let partial = r#"{"choices":[],"usage":{"prompt_tokens":1,"completion_tokens":2}}"#;
    let chunk: OpenAIStreamChunk =
        read(partial).expect("partial usage counts must decode");
    let usage = chunk.usage.expect("usage present");
    assert_eq!(usage.prompt_tokens, Some(1));
    assert_eq!(usage.completion_tokens, Some(2));
    assert_eq!(usage.total_tokens, None);
    assert!(usage.prompt_tokens_details.is_none());
    assert!(usage.completion_tokens_details.is_none());
}

#[test]
fn stream_usage_type_still_reads_full_counts_and_details() {
    let full = r#"{"prompt_tokens":13171,"completion_tokens":16,"total_tokens":13187,"completion_tokens_details":{"reasoning_tokens":14},"prompt_tokens_details":{"cached_tokens":13056}}"#;
    let usage: OpenAIStreamUsage = read(full).expect("full usage must decode");
    assert_eq!(usage.prompt_tokens, Some(13171));
    assert_eq!(usage.completion_tokens, Some(16));
    assert_eq!(usage.total_tokens, Some(13187));
    assert_eq!(
        usage.prompt_tokens_details.and_then(|d| d.cached_tokens),
        Some(13056)
    );
    assert_eq!(
        usage
            .completion_tokens_details
            .and_then(|d| d.reasoning_tokens),
        Some(14)
    );
}

#[test]
fn non_stream_response_without_choices_decodes_as_empty() {
    let no_choices = r#"{"id":"c1","object":"chat.completion","model":"m","usage":{"prompt_tokens":3,"completion_tokens":5,"total_tokens":8}}"#;
    let resp: OpenAIChatResponse =
        read_response(no_choices).expect("missing choices must decode");
    assert!(resp.choices.is_empty());
    assert_eq!(resp.id, "c1");
    assert_eq!(resp.model, "m");
    assert_eq!(resp.usage.prompt_tokens, 3);
    assert_eq!(resp.usage.total_tokens, 8);
}

#[test]
fn non_stream_response_with_null_choices_decodes_as_empty() {
    let null_choices = r#"{"id":"c1","object":"chat.completion","model":"m","choices":null,"usage":{"prompt_tokens":3,"completion_tokens":5,"total_tokens":8}}"#;
    let resp: OpenAIChatResponse =
        read_response(null_choices).expect("null choices must decode");
    assert!(resp.choices.is_empty());
    assert_eq!(resp.id, "c1");
    assert_eq!(resp.usage.prompt_tokens, 3);
}

#[test]
fn non_stream_response_with_object_choices_is_still_an_error() {
    let object_choices =
        r#"{"id":"c1","object":"chat.completion","model":"m","choices":{"0":{}}}"#;
    let err = read_response(object_choices)
        .expect_err("object choices must stay an error");
    assert!(err.contains("expected a sequence"), "{err}");
}

#[test]
fn non_stream_response_with_choices_still_reads_them() {
    let with_choices = r#"{"id":"c1","object":"chat.completion","model":"m","choices":[{"index":0,"message":{"role":"assistant","content":"hi"},"finish_reason":"stop"}],"usage":{"prompt_tokens":3,"completion_tokens":5,"total_tokens":8}}"#;
    let resp: OpenAIChatResponse =
        read_response(with_choices).expect("choices present must decode");
    assert_eq!(resp.choices.len(), 1);
    assert_eq!(resp.choices[0].message.content, "hi");
    assert_eq!(resp.choices[0].finish_reason, "stop");
}

#[test]
fn non_stream_response_without_usage_decodes_with_zero_counts() {
    let no_usage = r#"{"id":"c1","object":"chat.completion","model":"m","choices":[{"index":0,"message":{"role":"assistant","content":"hi"},"finish_reason":"stop"}]}"#;
    let resp: OpenAIChatResponse =
        read_response(no_usage).expect("missing usage must decode");
    assert_eq!(resp.usage.prompt_tokens, 0);
    assert_eq!(resp.usage.completion_tokens, 0);
    assert_eq!(resp.usage.total_tokens, 0);
    assert_eq!(resp.choices.len(), 1);
    assert_eq!(resp.choices[0].message.content, "hi");
}

#[test]
fn non_stream_response_with_null_usage_decodes_with_zero_counts() {
    let null_usage = r#"{"id":"c1","object":"chat.completion","model":"m","choices":[{"index":0,"message":{"role":"assistant","content":"hi"},"finish_reason":"stop"}],"usage":null}"#;
    let resp: OpenAIChatResponse =
        read_response(null_usage).expect("null usage must decode");
    assert_eq!(resp.usage.prompt_tokens, 0);
    assert_eq!(resp.usage.completion_tokens, 0);
    assert_eq!(resp.usage.total_tokens, 0);
    assert_eq!(resp.choices.len(), 1);
    assert_eq!(resp.choices[0].message.content, "hi");
}

#[test]
fn non_stream_response_with_usage_reads_the_counts() {
    let with_usage = r#"{"id":"c1","object":"chat.completion","model":"m","choices":[{"index":0,"message":{"role":"assistant","content":"hi"},"finish_reason":"stop"}],"usage":{"prompt_tokens":7,"completion_tokens":9,"total_tokens":16}}"#;
    let resp: OpenAIChatResponse =
        read_response(with_usage).expect("usage present must decode");
    assert_eq!(resp.usage.prompt_tokens, 7);
    assert_eq!(resp.usage.completion_tokens, 9);
    assert_eq!(resp.usage.total_tokens, 16);
}

#[test]
fn stream_choices_accepts_every_non_array_shape() {
    for body in [
        r#"{"id":"c1","choices":null}"#,
        r#"{"id":"c1"}"#,
        r#"{"id":"c1","choices":{"0":{}}}"#,
        r#"{"id":"c1","choices":123}"#,
    ] {
        let chunk: OpenAIStreamChunk =
            read(body).unwrap_or_else(|e| panic!("{body} must decode: {e}"));
        assert!(chunk.choices.is_empty(), "{body}");
        assert_eq!(chunk.id, "c1", "{body}");
    }
}

#[test]
fn stream_choices_still_decodes_a_real_array() {
    let real = r#"{"id":"c1","choices":[{"index":0,"delta":{"content":"hi"}}]}"#;
    let chunk: OpenAIStreamChunk = read(real).expect("real array must decode");
    assert_eq!(chunk.choices.len(), 1);
    assert_eq!(chunk.choices[0].delta.content.as_deref(), Some("hi"));
}

#[test]
fn stream_choice_without_delta_decodes_to_an_empty_delta() {
    let no_delta = r#"{"id":"c1","choices":[{"index":0,"finish_reason":"stop"}]}"#;
    let chunk: OpenAIStreamChunk =
        read(no_delta).expect("missing delta must decode");
    let choice = chunk.choices.first().expect("choice present");
    assert!(choice.delta.role.is_none());
    assert!(choice.delta.content.is_none());
    assert!(choice.delta.reasoning_content.is_none());
    assert!(choice.delta.tool_calls.is_none());
    assert_eq!(choice.finish_reason.as_deref(), Some("stop"));
}

#[test]
fn stream_choice_with_delta_still_reads_its_content() {
    let with_delta = r#"{"id":"c1","choices":[{"index":0,"delta":{"content":"hi"}}]}"#;
    let chunk: OpenAIStreamChunk =
        read(with_delta).expect("delta present must decode");
    let choice = chunk.choices.first().expect("choice present");
    assert_eq!(choice.delta.content.as_deref(), Some("hi"));
}

#[test]
fn stream_tool_call_index_absent_is_not_zero() {
    let absent: OpenAIStreamToolCall =
        read(r#"{"id":"call_1","function":{"arguments":"{}"}}"#)
            .expect("absent index must decode");
    assert_eq!(absent.index, None);
    assert_eq!(absent.function.name, None);

    let zero: OpenAIStreamToolCall =
        read(r#"{"index":0,"function":{"name":"f","arguments":"{}"}}"#)
            .expect("explicit index must decode");
    assert_eq!(zero.index, Some(0));
    assert_eq!(zero.function.name.as_deref(), Some("f"));
}
