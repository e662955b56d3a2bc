//! What holds of every answer.
use crate::models::adapters::openai::finish;
use crate::models::adapters::openai::finish::map_finish_reason;
use crate::models::adapters::openai::response;
use crate::models::adapters::openai::response::convert_openai_to_anthropic;
use crate::models::adapters::openai::response::convert_openai_to_chat_response;
use crate::models::adapters::openai::response::open_envelope;
use crate::models::adapters::openai::response::parse_openai_response_to_anthropic;
use crate::models::adapters::openai::response::parse_response;
use crate::models::adapters::openai::response::parse_stream_line;
use crate::models::adapters::openai::response::try_parse_json;
use crate::models::adapters::openai::response::unwrap_api_response;
use crate::models::types::ChatContentBlock;
use crate::models::types::ChatResponse;
use crate::models::types::StreamEvent;
use crate::models::wire_anthropic::AnthropicContentBlock;
use crate::models::wire_anthropic::AnthropicResponse;
use crate::models::wire_openai;
use crate::models::wire_openai::OpenAIChatResponse;
use crate::shared::documents;
use crate::shared::errors;
use crate::shared::errors::Error;
use crate::shared::json;
use crate::shared::raw::FromText;
use crate::shared::text;
use serde_json::Value;
use vstd::prelude::*;

verus! {

/// Three finish reasons have a name of their own among the stop reasons; any other goes by its own.
pub open spec fn stops_for(finish_reason: Seq<char>, stop_reason: Seq<char>) -> bool {
    &&& finish_reason == "stop"@ ==> stop_reason == "end_turn"@
    &&& finish_reason == "tool_calls"@ ==> stop_reason == "tool_use"@
    &&& finish_reason == "length"@ ==> stop_reason == "max_tokens"@
    &&& finish_reason != "stop"@ && finish_reason != "tool_calls"@ && finish_reason != "length"@
        ==> stop_reason == finish_reason
}

/// The names of the three finish reasons differ.
proof fn lemma_reasons_differ()
    ensures
        "stop"@ != "tool_calls"@,
        "stop"@ != "length"@,
        "tool_calls"@ != "length"@,
        "stop"@.len() == 4,
        "tool_calls"@.len() == 10,
        "length"@.len() == 6,
{
    reveal_strlit("stop");
    reveal_strlit("tool_calls");
    reveal_strlit("length");
    assert("stop"@.len() == 4);
    assert("tool_calls"@.len() == 10);
    assert("length"@.len() == 6);
}

/// Every finish reason is told as the stop reason that it goes by; none is told as an empty one but
/// the empty one.
pub proof fn law_finish_reasons_go_by_their_names(finish_reason: &str, stop_reason: String)
    requires
        call_ensures(map_finish_reason, (finish_reason,), stop_reason),
    ensures
        stops_for(finish_reason@, stop_reason@),
        stop_reason@.len() == 0 <==> finish_reason@.len() == 0,
{
    lemma_reasons_differ();
    reveal_strlit("end_turn");
    reveal_strlit("tool_use");
    reveal_strlit("max_tokens");
}

/// The same of the stop reason that a message is told to end with.
pub proof fn law_stop_reason_goes_by_its_name(finish_reason: Seq<char>)
    ensures
        stops_for(finish_reason, finish::stop_reason(finish_reason)),
{
    lemma_reasons_differ();
}

/// The document that a text is to be taken for: the one that it holds where it is JSON, and else a
/// text.
pub open spec fn taken_for(s: Seq<char>, doc: json::Json) -> bool {
    if json::json_parse(s) is Ok {
        doc == json::json_parse(s)->Ok_0
    } else {
        doc == json::Json::Str(s)
    }
}

/// A text that is JSON is taken for what it holds, and any other text for itself.
pub proof fn law_texts_are_taken_for_what_they_hold(s: &str, value: Value)
    requires
        call_ensures(try_parse_json, (s,), value),
    ensures
        taken_for(s@, json::value_json(value)),
{
}

/// How many blocks of thinking a message has.
pub open spec fn thoughts(message: wire_openai::OpenAIChatMessageView) -> int {
    if message.reasoning_content is Some && message.reasoning_content->Some_0.len() > 0 {
        1
    } else {
        0
    }
}

/// How many blocks of text a message has.
pub open spec fn sayings(message: wire_openai::OpenAIChatMessageView) -> int {
    if message.content.len() > 0 {
        1
    } else {
        0
    }
}

/// How many tool calls a message has.
pub open spec fn calls(message: wire_openai::OpenAIChatMessageView) -> int {
    if message.tool_calls is Some {
        message.tool_calls->Some_0.len() as int
    } else {
        0
    }
}

/// The block is one of thinking, with this text and nothing else in it.
pub open spec fn chat_thinks(block: ChatContentBlock, thinking: Seq<char>) -> bool {
    &&& block.kind@ == "thinking"@
    &&& block.thinking is Some && block.thinking->Some_0@ == thinking
    &&& block.text is None
    &&& block.id is None
    &&& block.name is None
    &&& block.input is None
}

/// The block is one of text, with this text and nothing else in it.
pub open spec fn chat_says(block: ChatContentBlock, text: Seq<char>) -> bool {
    &&& block.kind@ == "text"@
    &&& block.text is Some && block.text->Some_0@ == text
    &&& block.thinking is None
    &&& block.id is None
    &&& block.name is None
    &&& block.input is None
}

/// The block is that of the tool call: it has its id, its name and its arguments, and nothing else in
/// it.
pub open spec fn chat_calls(block: ChatContentBlock, call: wire_openai::OpenAIToolCallView) -> bool {
    &&& block.kind@ == "tool_use"@
    &&& block.id is Some && block.id->Some_0@ == call.id
    &&& block.name is Some <==> call.function.name is Some
    &&& block.name is Some ==> block.name->Some_0@ == call.function.name->Some_0
    &&& block.input is Some && taken_for(
        call.function.arguments,
        json::value_json(block.input->Some_0),
    )
    &&& block.text is None
    &&& block.thinking is None
}

/// The blocks are those of the message: its thinking, then its text, then its tool calls in their
/// order, and no other.
pub open spec fn chat_content(
    blocks: Seq<ChatContentBlock>,
    message: wire_openai::OpenAIChatMessageView,
) -> bool {
    let t = thoughts(message);
    let n = t + sayings(message);
    &&& blocks.len() == n + calls(message)
    &&& t == 1 ==> chat_thinks(blocks[0], message.reasoning_content->Some_0)
    &&& sayings(message) == 1 ==> chat_says(blocks[t], message.content)
    &&& forall|i: int|
        0 <= i < calls(message) ==> chat_calls(
            blocks[n + i],
            #[trigger] message.tool_calls->Some_0[i],
        )
}

/// The answer is that of the response: who it is from, what the first choice says and why it ended,
/// and the tokens that the request and the answer took.
pub open spec fn chat_answers(answer: ChatResponse, oai: wire_openai::OpenAIChatResponseView) -> bool {
    &&& answer.id@ == oai.id
    &&& answer.model@ == oai.model
    &&& answer.kind@ == "message"@
    &&& answer.role@ == "assistant"@
    &&& answer.usage.input_tokens == oai.usage.prompt_tokens
    &&& answer.usage.output_tokens == oai.usage.completion_tokens
    &&& oai.choices.len() == 0 ==> answer.content@.len() == 0 && answer.stop_reason@.len() == 0
    &&& oai.choices.len() > 0 ==> chat_content(answer.content@, oai.choices[0].message)
        && stops_for(oai.choices[0].finish_reason, answer.stop_reason@)
    &&& answer.token_remaining == -1
    &&& answer.call_remaining == -1
    &&& answer.model_token_remaining == -1
    &&& answer.model_token_remaining_etu == -1
}

proof fn lemma_chat_content(blocks: Seq<ChatContentBlock>, message: wire_openai::OpenAIChatMessageView)
    requires
        Seq::new(blocks.len(), |i: int| blocks[i]@) == response::thinking_part(message)
            + response::text_part(message) + response::tool_part(message),
    ensures
        chat_content(blocks, message),
{
    let seen = Seq::new(blocks.len(), |i: int| blocks[i]@);
    let t = thoughts(message);
    let n = t + sayings(message);
    assert(seen.len() == n + calls(message));
    if t == 1 {
        assert(seen[0] == response::thinking_part(message)[0]);
        assert(seen[0] == blocks[0]@);
    }
    if sayings(message) == 1 {
        assert(seen[t] == response::text_part(message)[0]);
        assert(seen[t] == blocks[t]@);
    }
    assert forall|i: int| 0 <= i < calls(message) implies chat_calls(
        blocks[n + i],
        #[trigger] message.tool_calls->Some_0[i],
    ) by {
        assert(seen[n + i] == response::tool_part(message)[i]);
        assert(seen[n + i] == blocks[n + i]@);
    }
}

proof fn lemma_chat_answers(answer: ChatResponse, oai: wire_openai::OpenAIChatResponseView)
    requires
        answer@ == response::answer_of(oai),
        answer.token_remaining == -1,
        answer.call_remaining == -1,
        answer.model_token_remaining == -1,
        answer.model_token_remaining_etu == -1,
    ensures
        chat_answers(answer, oai),
{
    let seen = Seq::new(answer.content@.len(), |i: int| answer.content@[i]@);
    assert(answer@.content == seen);
    if oai.choices.len() > 0 {
        law_stop_reason_goes_by_its_name(oai.choices[0].finish_reason);
        lemma_chat_content(answer.content@, oai.choices[0].message);
    } else {
        assert(seen.len() == 0);
    }
}

/// An answer says what the response says: its tokens, its reason and each of its blocks.
pub proof fn law_chat_answer_says_what_the_response_says(oai: OpenAIChatResponse, answer: ChatResponse)
    requires
        call_ensures(convert_openai_to_chat_response, (&oai,), answer),
    ensures
        chat_answers(answer, oai.deep_view()),
{
    lemma_chat_answers(answer, oai.deep_view());
}

/// An answer that is read out of a body is that of the response in what the body carries. It is an
/// error where the gateway refused, with the code and the message of the refusal, and where the body
/// carries no response.
pub proof fn law_chat_answer_is_read_from_the_body(
    body: &[u8],
    carried: errors::Result<String>,
    result: errors::Result<ChatResponse>,
)
    requires
        call_ensures(unwrap_api_response, (body,), carried),
        call_ensures(parse_response, (body,), result),
    ensures
        carried is Err ==> result is Err && result->Err_0@ == carried->Err_0@,
        carried is Ok ==> (result is Ok <==> OpenAIChatResponse::from_text(
            carried->Ok_0@,
        ) is Some),
        carried is Ok && result is Ok ==> chat_answers(
            result->Ok_0,
            OpenAIChatResponse::from_text(carried->Ok_0@)->Some_0,
        ),
        carried is Ok && result is Err ==> result->Err_0 is Other && "decode openai response: "@
            == result->Err_0->Other_0@.take("decode openai response: "@.len() as int),
{
    if result is Ok {
        lemma_chat_answers(
            result->Ok_0,
            OpenAIChatResponse::from_text(carried->Ok_0@)->Some_0,
        );
    } else if carried is Ok {
        let message = result->Err_0->Other_0@;
        let head = "decode openai response: "@;
        assert(head.is_prefix_of(message));
        assert(message.take(head.len() as int) =~= head);
    }
}

/// The block is one of thinking, with this text and nothing else in it.
pub open spec fn anthropic_thinks(block: AnthropicContentBlock, thinking: Seq<char>) -> bool {
    &&& block.kind@ == "thinking"@
    &&& block.thinking is Some && block.thinking->Some_0@ == thinking
    &&& block.text is None
    &&& block.id is None
    &&& block.name is None
    &&& block.input is None
}

/// The block is one of text, with this text and nothing else in it.
pub open spec fn anthropic_says(block: AnthropicContentBlock, text: Seq<char>) -> bool {
    &&& block.kind@ == "text"@
    &&& block.text is Some && block.text->Some_0@ == text
    &&& block.thinking is None
    &&& block.id is None
    &&& block.name is None
    &&& block.input is None
}

/// The block is that of the tool call: it has its id, its name and its arguments, and nothing else in
/// it.
pub open spec fn anthropic_calls(block: AnthropicContentBlock, call: wire_openai::OpenAIToolCallView) -> bool {
    &&& block.kind@ == "tool_use"@
    &&& block.id is Some && block.id->Some_0@ == call.id
    &&& block.name is Some <==> call.function.name is Some
    &&& block.name is Some ==> block.name->Some_0@ == call.function.name->Some_0
    &&& block.input is Some && taken_for(
        call.function.arguments,
        json::value_json(block.input->Some_0),
    )
    &&& block.text is None
    &&& block.thinking is None
}

/// The blocks are those of the message: its thinking, then its text, then its tool calls in their
/// order, and no other.
pub open spec fn anthropic_content(
    blocks: Seq<AnthropicContentBlock>,
    message: wire_openai::OpenAIChatMessageView,
) -> bool {
    let t = thoughts(message);
    let n = t + sayings(message);
    &&& blocks.len() == n + calls(message)
    &&& t == 1 ==> anthropic_thinks(blocks[0], message.reasoning_content->Some_0)
    &&& sayings(message) == 1 ==> anthropic_says(blocks[t], message.content)
    &&& forall|i: int|
        0 <= i < calls(message) ==> anthropic_calls(
            blocks[n + i],
            #[trigger] message.tool_calls->Some_0[i],
        )
}

/// The answer is that of the response: who it is from, what the first choice says and why it ended,
/// and the tokens that the request and the answer took.
pub open spec fn anthropic_answers(answer: AnthropicResponse, oai: wire_openai::OpenAIChatResponseView) -> bool {
    &&& answer.id@ == oai.id
    &&& answer.model@ == oai.model
    &&& answer.kind@ == "message"@
    &&& answer.role@ == "assistant"@
    &&& answer.usage.input_tokens == oai.usage.prompt_tokens
    &&& answer.usage.output_tokens == oai.usage.completion_tokens
    &&& oai.choices.len() == 0 ==> answer.content@.len() == 0 && answer.stop_reason@.len() == 0
    &&& oai.choices.len() > 0 ==> anthropic_content(answer.content@, oai.choices[0].message)
        && stops_for(oai.choices[0].finish_reason, answer.stop_reason@)
    &&& answer.stop_sequence is None
}

proof fn lemma_anthropic_content(blocks: Seq<AnthropicContentBlock>, message: wire_openai::OpenAIChatMessageView)
    requires
        Seq::new(blocks.len(), |i: int| blocks[i]@) == response::thinking_part(message)
            + response::text_part(message) + response::tool_part(message),
    ensures
        anthropic_content(blocks, message),
{
    let seen = Seq::new(blocks.len(), |i: int| blocks[i]@);
    let t = thoughts(message);
    let n = t + sayings(message);
    assert(seen.len() == n + calls(message));
    if t == 1 {
        assert(seen[0] == response::thinking_part(message)[0]);
        assert(seen[0] == blocks[0]@);
    }
    if sayings(message) == 1 {
        assert(seen[t] == response::text_part(message)[0]);
        assert(seen[t] == blocks[t]@);
    }
    assert forall|i: int| 0 <= i < calls(message) implies anthropic_calls(
        blocks[n + i],
        #[trigger] message.tool_calls->Some_0[i],
    ) by {
        assert(seen[n + i] == response::tool_part(message)[i]);
        assert(seen[n + i] == blocks[n + i]@);
    }
}

proof fn lemma_anthropic_answers(answer: AnthropicResponse, oai: wire_openai::OpenAIChatResponseView)
    requires
        answer@ == response::answer_of(oai),
        answer.stop_sequence is None,
    ensures
        anthropic_answers(answer, oai),
{
    let seen = Seq::new(answer.content@.len(), |i: int| answer.content@[i]@);
    assert(answer@.content == seen);
    if oai.choices.len() > 0 {
        law_stop_reason_goes_by_its_name(oai.choices[0].finish_reason);
        lemma_anthropic_content(answer.content@, oai.choices[0].message);
    } else {
        assert(seen.len() == 0);
    }
}

/// An answer says what the response says: its tokens, its reason and each of its blocks.
pub proof fn law_anthropic_answer_says_what_the_response_says(oai: OpenAIChatResponse, answer: AnthropicResponse)
    requires
        call_ensures(convert_openai_to_anthropic, (&oai,), answer),
    ensures
        anthropic_answers(answer, oai.deep_view()),
{
    lemma_anthropic_answers(answer, oai.deep_view());
}

/// An answer that is read out of a body is that of the response in what the body carries. It is an
/// error where the gateway refused, with the code and the message of the refusal, and where the body
/// carries no response.
pub proof fn law_anthropic_answer_is_read_from_the_body(
    body: &[u8],
    carried: errors::Result<String>,
    result: errors::Result<AnthropicResponse>,
)
    requires
        call_ensures(unwrap_api_response, (body,), carried),
        call_ensures(parse_openai_response_to_anthropic, (body,), result),
    ensures
        carried is Err ==> result is Err && result->Err_0@ == carried->Err_0@,
        carried is Ok ==> (result is Ok <==> OpenAIChatResponse::from_text(
            carried->Ok_0@,
        ) is Some),
        carried is Ok && result is Ok ==> anthropic_answers(
            result->Ok_0,
            OpenAIChatResponse::from_text(carried->Ok_0@)->Some_0,
        ),
        carried is Ok && result is Err ==> result->Err_0 is Other && "decode openai response: "@
            == result->Err_0->Other_0@.take("decode openai response: "@.len() as int),
{
    if result is Ok {
        lemma_anthropic_answers(
            result->Ok_0,
            OpenAIChatResponse::from_text(carried->Ok_0@)->Some_0,
        );
    } else if carried is Ok {
        let message = result->Err_0->Other_0@;
        let head = "decode openai response: "@;
        assert(head.is_prefix_of(message));
        assert(message.take(head.len() as int) =~= head);
    }
}

/// Both dialects tell the same answer.
pub proof fn law_dialects_tell_the_same(
    oai: OpenAIChatResponse,
    chat: ChatResponse,
    anthropic: AnthropicResponse,
)
    requires
        call_ensures(convert_openai_to_chat_response, (&oai,), chat),
        call_ensures(convert_openai_to_anthropic, (&oai,), anthropic),
    ensures
        chat.id@ == anthropic.id@,
        chat.model@ == anthropic.model@,
        chat.kind@ == anthropic.kind@,
        chat.role@ == anthropic.role@,
        chat.stop_reason@ == anthropic.stop_reason@,
        chat.usage.input_tokens == anthropic.usage.input_tokens,
        chat.usage.output_tokens == anthropic.usage.output_tokens,
        chat.content@.len() == anthropic.content@.len(),
        forall|i: int|
            0 <= i < chat.content@.len() ==> (#[trigger] chat.content@[i]).kind@
                == anthropic.content@[i].kind@ && chat.content@[i].text.deep_view()
                == anthropic.content@[i].text.deep_view() && chat.content@[i].thinking.deep_view()
                == anthropic.content@[i].thinking.deep_view() && chat.content@[i].id.deep_view()
                == anthropic.content@[i].id.deep_view() && chat.content@[i].name.deep_view()
                == anthropic.content@[i].name.deep_view(),
{
    assert(chat@.content.len() == chat.content@.len());
    assert(anthropic@.content.len() == anthropic.content@.len());
    assert forall|i: int| 0 <= i < chat.content@.len() implies (#[trigger] chat.content@[i])@
        == anthropic.content@[i]@ by {
        assert(chat@.content[i] == chat.content@[i]@);
        assert(anthropic@.content[i] == anthropic.content@[i]@);
    }
}

/// What an envelope is opened to: a document without `data` stands for itself; one with `data` and
/// with a code other than 0 is a refusal with that code and with its message; any other carries its
/// `data`.
pub open spec fn opens_to(doc: json::Json, body: Seq<char>, result: errors::Result<String>) -> bool {
    let data = documents::member(doc, "data"@);
    let code = documents::member(doc, "code"@);
    let message = documents::member(doc, "message"@);
    let refused = documents::is_count(code) && !documents::counts(code, 0);
    if documents::absent(data) {
        result is Ok && result->Ok_0@ == body
    } else if refused {
        &&& result is Err && result->Err_0 is Business
        &&& documents::counts(code, result->Err_0->Business_0.code)
        &&& documents::is_text(message) ==> documents::says(
            message,
            result->Err_0->Business_0.message@,
        )
        &&& !documents::is_text(message) ==> result->Err_0->Business_0.message@.len() == 0
    } else {
        result is Ok && result->Ok_0@ == json::json_print(data->Some_0)
    }
}

/// An envelope is opened to what it carries, or to the refusal that it is.
pub proof fn law_envelopes_are_opened(wrapper: Value, body: &str, result: errors::Result<String>)
    requires
        call_ensures(open_envelope, (&wrapper, body), result),
    ensures
        opens_to(json::value_json(wrapper), body@, result),
{
}

/// A body that is no JSON stands for itself; one that is JSON is opened.
pub proof fn law_bodies_are_opened(body: &[u8], result: errors::Result<String>)
    requires
        call_ensures(unwrap_api_response, (body,), result),
    ensures
        ({
            let said = text::utf8_lossy(body@);
            &&& json::json_parse(said) is Err ==> result is Ok && result->Ok_0@ == said
            &&& json::json_parse(said) is Ok ==> opens_to(
                json::json_parse(said)->Ok_0,
                said,
                result,
            )
        }),
{
}

/// A line of a stream that is JSON is passed on as it is, under the name that it came with; the line
/// `[DONE]` is passed on as nothing, and announces the end; any other line is an error.
pub proof fn law_lines_are_passed_on(
    event_type: &str,
    data: &str,
    result: errors::Result<(StreamEvent, bool)>,
)
    requires
        call_ensures(parse_stream_line, (event_type, data), result),
    ensures
        data@ == "[DONE]"@ ==> result is Ok && result->Ok_0.1 && result->Ok_0.0.event@.len() == 0
            && result->Ok_0.0.data@.len() == 0,
        data@ != "[DONE]"@ ==> (result is Ok <==> json::json_parse(data@) is Ok),
        data@ != "[DONE]"@ && result is Ok ==> !result->Ok_0.1 && result->Ok_0.0.event@
            == event_type@ && result->Ok_0.0.data@ == data@,
        result is Err ==> result->Err_0 is Other && result->Err_0->Other_0@
            == "parse openai stream chunk: "@ + json::json_parse(data@)->Err_0,
{
}

/// An event is empty unless somebody fills it.
pub proof fn law_events_are_empty_at_first(event: StreamEvent)
    requires
        call_ensures(<StreamEvent as Default>::default, (), event),
    ensures
        event.event@.len() == 0,
        event.data@.len() == 0,
{
}

/// An error says what it is made of.
pub proof fn law_errors_say_what_they_are_made_of(
    message: String,
    other: Error,
    code: i64,
    refusal: Error,
    said: &str,
    refused: &str,
)
    requires
        call_ensures(Error::other, (message,), other),
        call_ensures(Error::business, (code, message), refusal),
        call_ensures(Error::message, (&other,), said),
        call_ensures(Error::message, (&refusal,), refused),
    ensures
        other is Other && other->Other_0@ == message@,
        refusal is Business && refusal->Business_0.code == code && refusal->Business_0.message@
            == message@,
        said@ == message@,
        refused@ == message@,
{
}

/// A failure of the network says which operation failed, where, and how; it is neither a timeout nor
/// a lost connection unless somebody says so.
pub proof fn law_network_errors_say_what_failed(
    op: &str,
    url: &str,
    message: &str,
    error: errors::NetworkError,
    said: &str,
)
    requires
        call_ensures(errors::NetworkError::new, (op, url, message), error),
        call_ensures(Error::message, (&Error::Network(error),), said),
    ensures
        error.op@ == op@,
        error.url@ == url@,
        error.message@ == message@,
        !error.timeout,
        !error.eof,
        said@ == message@,
{
}

} // verus!
