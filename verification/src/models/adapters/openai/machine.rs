//! How the frames of a stream become events.
//!
//! Every function here takes the state of a stream and says what the state becomes and which events
//! come out. The converter is proved to do just that, and the laws of the stream are proved of it.
use crate::models::adapters::openai::events;
use crate::models::adapters::openai::events::StreamMessageUsage;
use crate::models::adapters::openai::finish;
use crate::models::wire_openai;
use crate::shared::decode::FromJson;
use crate::shared::json;
use vstd::prelude::*;

verus! {

/// What tells the tool calls of a stream apart.
pub ghost enum ToolKeyView {
    Index(i64),
    Id(Seq<char>),
}

/// A tool call that has a block.
pub ghost struct ToolBlockView {
    pub key: ToolKeyView,
    /// The index of the block.
    pub index: i64,
    /// The arguments that have been sent.
    pub args: Seq<char>,
}

/// The state of a stream.
#[verifier::ext_equal]
pub ghost struct StreamState {
    pub message_started: bool,
    pub thinking_started: bool,
    pub thinking_stopped: bool,
    /// The index of the thinking block.
    pub thinking_block_index: i64,
    /// A text block is open.
    pub text_started: bool,
    /// The tool calls, in the order in which they came.
    pub tools: Seq<ToolBlockView>,
    /// The tool call that a piece without index and id belongs to.
    pub last_tool_key: Option<ToolKeyView>,
    /// The index of the open thinking or text block, or else of the next block.
    pub block_index: i64,
    /// The end of the message has been sent.
    pub message_closed: bool,
    /// The blocks that were open at the end have been stopped.
    pub blocks_closed: bool,
    /// The stop reason of a message whose end waits for its usage.
    pub pending_stop_reason: Option<Seq<char>>,
    /// The usage that came last.
    pub usage: Option<StreamMessageUsage>,
}

/// A state, and the events on the way to it.
pub type Step = (StreamState, Seq<events::Event>);

/// A stream of which nothing has come.
pub open spec fn fresh() -> StreamState {
    StreamState {
        message_started: false,
        thinking_started: false,
        thinking_stopped: false,
        thinking_block_index: 0,
        text_started: false,
        tools: Seq::empty(),
        last_tool_key: None,
        block_index: 0,
        message_closed: false,
        blocks_closed: false,
        pending_stop_reason: None,
        usage: None,
    }
}

/// The index of the next block. It starts anew after the last one.
pub open spec fn next_index(index: i64) -> i64 {
    if index == i64::MAX {
        i64::MIN
    } else {
        (index + 1) as i64
    }
}

/// Nothing happens.
pub open spec fn stay(s: StreamState) -> Step {
    (s, Seq::empty())
}

/// A text that may be missing.
pub open spec fn text_of(s: Option<Seq<char>>) -> Seq<char> {
    match s {
        Some(text) => text,
        None => Seq::empty(),
    }
}

/// The message starts with the first frame that has a choice.
pub open spec fn start_message(s: StreamState, id: Seq<char>) -> Step {
    if s.message_started {
        stay(s)
    } else {
        (
            StreamState { message_started: true, ..s },
            seq![events::Event::MessageStart { id }],
        )
    }
}

/// A thinking block is open.
pub open spec fn thinking_open(s: StreamState) -> bool {
    s.thinking_started && !s.thinking_stopped
}

/// Stops the thinking block, where it is open.
pub open spec fn stop_thinking(s: StreamState) -> Step {
    if thinking_open(s) {
        (
            StreamState { thinking_stopped: true, block_index: next_index(s.block_index), ..s },
            seq![events::Event::BlockStop { index: s.thinking_block_index }],
        )
    } else {
        stay(s)
    }
}

/// Stops the text block, where one is open.
pub open spec fn stop_text(s: StreamState) -> Step {
    if s.text_started {
        (
            StreamState { text_started: false, block_index: next_index(s.block_index), ..s },
            seq![events::Event::BlockStop { index: s.block_index }],
        )
    } else {
        stay(s)
    }
}

/// The thinking block, where there is none yet.
pub open spec fn start_thinking(s: StreamState) -> Step {
    if s.thinking_started {
        stay(s)
    } else {
        let (t, out) = stop_text(s);
        (
            StreamState { thinking_started: true, thinking_block_index: t.block_index, ..t },
            out + seq![
                events::Event::BlockStart { index: t.block_index, block: events::Block::Thinking },
            ],
        )
    }
}

/// Reasoning goes to the thinking block.
pub open spec fn on_reasoning(s: StreamState, text: Seq<char>) -> Step {
    if text.len() == 0 {
        stay(s)
    } else {
        let (t, out) = start_thinking(s);
        (
            t,
            out + seq![
                events::Event::BlockDelta {
                    index: t.thinking_block_index,
                    piece: events::Piece::Thinking(text),
                },
            ],
        )
    }
}

/// A text block, where none is open.
pub open spec fn start_text(s: StreamState) -> Step {
    if s.text_started {
        stay(s)
    } else {
        (
            StreamState { text_started: true, ..s },
            seq![events::Event::BlockStart { index: s.block_index, block: events::Block::Text }],
        )
    }
}

/// Text goes to the text block; thinking is over.
pub open spec fn on_text(s: StreamState, text: Seq<char>) -> Step {
    if text.len() == 0 {
        stay(s)
    } else {
        let (t, stopped) = stop_thinking(s);
        let (u, started) = start_text(t);
        (
            u,
            stopped + started + seq![
                events::Event::BlockDelta {
                    index: u.block_index,
                    piece: events::Piece::Text(text),
                },
            ],
        )
    }
}

/// The tool call that a piece belongs to: the one with its index, or else with its id, or else the
/// last one.
pub open spec fn tool_key(
    s: StreamState,
    call: wire_openai::OpenAIStreamToolCallView,
) -> ToolKeyView {
    match call.index {
        Some(index) => ToolKeyView::Index(index),
        None => if text_of(call.id).len() > 0 {
            ToolKeyView::Id(text_of(call.id))
        } else {
            match s.last_tool_key {
                Some(key) => key,
                None => ToolKeyView::Index(0),
            }
        },
    }
}

/// The place of the tool call with that key; the number of tool calls, where there is none.
pub open spec fn place_of(tools: Seq<ToolBlockView>, key: ToolKeyView) -> int
    decreases tools.len(),
{
    if tools.len() == 0 || tools.first().key == key {
        0
    } else {
        1 + place_of(tools.drop_first(), key)
    }
}

/// A block for the tool call, where it has none yet. Thinking and text are over.
pub open spec fn start_tool(
    s: StreamState,
    key: ToolKeyView,
    call: wire_openai::OpenAIStreamToolCallView,
) -> Step {
    if place_of(s.tools, key) < s.tools.len() {
        stay(s)
    } else {
        let (t, thought) = stop_thinking(s);
        let (u, said) = stop_text(t);
        (
            StreamState {
                tools: u.tools.push(
                    ToolBlockView { key, index: u.block_index, args: Seq::empty() },
                ),
                block_index: next_index(u.block_index),
                ..u
            },
            thought + said + seq![
                events::Event::BlockStart {
                    index: u.block_index,
                    block: events::Block::ToolUse { id: call.id, name: call.function.name },
                },
            ],
        )
    }
}

/// What is new in the arguments `raw`, when `sent` has been sent. A gateway that sends all arguments
/// again sends a longer text that starts with `sent`; any other text is a piece.
pub open spec fn unsent(sent: Seq<char>, raw: Seq<char>) -> Seq<char> {
    if sent.len() > 0 && raw.len() > sent.len() && sent.is_prefix_of(raw) {
        raw.skip(sent.len() as int)
    } else {
        raw
    }
}

/// Arguments go to the block of their tool call.
pub open spec fn add_input(s: StreamState, key: ToolKeyView, raw: Seq<char>) -> Step {
    if raw.len() == 0 {
        stay(s)
    } else {
        let at = place_of(s.tools, key);
        let tool = s.tools[at];
        let piece = unsent(tool.args, raw);
        (
            StreamState {
                tools: s.tools.update(at, ToolBlockView { args: tool.args + piece, ..tool }),
                ..s
            },
            seq![
                events::Event::BlockDelta {
                    index: tool.index,
                    piece: events::Piece::Input(piece),
                },
            ],
        )
    }
}

/// A piece of a tool call.
pub open spec fn on_tool(s: StreamState, call: wire_openai::OpenAIStreamToolCallView) -> Step {
    let key = tool_key(s, call);
    let (t, started) = start_tool(StreamState { last_tool_key: Some(key), ..s }, key, call);
    let (u, added) = add_input(t, key, call.function.arguments);
    (u, started + added)
}

/// Pieces of tool calls, one after the other.
pub open spec fn on_tools(
    s: StreamState,
    calls: Seq<wire_openai::OpenAIStreamToolCallView>,
) -> Step
    decreases calls.len(),
{
    if calls.len() == 0 {
        stay(s)
    } else {
        let (t, before) = on_tools(s, calls.drop_last());
        let (u, out) = on_tool(t, calls.last());
        (u, before + out)
    }
}

/// The stops of the tool blocks, in the order in which they started.
pub open spec fn tool_stops(tools: Seq<ToolBlockView>) -> Seq<events::Event> {
    Seq::new(tools.len(), |i: int| events::Event::BlockStop { index: tools[i].index })
}

/// The stop of the text or thinking block that is open.
pub open spec fn last_stop(s: StreamState) -> Seq<events::Event> {
    if s.text_started {
        seq![events::Event::BlockStop { index: s.block_index }]
    } else if thinking_open(s) {
        seq![events::Event::BlockStop { index: s.thinking_block_index }]
    } else {
        Seq::empty()
    }
}

/// Stops the blocks that are open. This happens once.
pub open spec fn close_blocks(s: StreamState) -> Step {
    if s.blocks_closed {
        stay(s)
    } else {
        (
            StreamState {
                blocks_closed: true,
                thinking_stopped: s.thinking_stopped || (s.thinking_started && !s.text_started),
                ..s
            },
            last_stop(s) + tool_stops(s.tools),
        )
    }
}

/// Ends the message. This happens once. The usage that came last goes with it.
pub open spec fn end_message(s: StreamState, stop_reason: Seq<char>) -> Step {
    if s.message_closed {
        stay(s)
    } else {
        (
            StreamState { message_closed: true, pending_stop_reason: None, ..s },
            seq![
                events::Event::MessageDelta { stop_reason, usage: s.usage },
                events::Event::MessageStop,
            ],
        )
    }
}

/// Ends a message that has waited for its usage.
pub open spec fn release(s: StreamState) -> Step {
    match s.pending_stop_reason {
        Some(stop_reason) => end_message(s, stop_reason),
        None => stay(s),
    }
}

/// A finish reason stops the blocks. It ends the message where its usage has come, and else lets the
/// end wait. Only the first one counts.
pub open spec fn on_finish(s: StreamState, finish_reason: Seq<char>) -> Step {
    if finish_reason.len() == 0 || s.message_closed || s.pending_stop_reason is Some {
        stay(s)
    } else {
        let (t, stopped) = close_blocks(s);
        if t.usage is Some {
            let (u, ended) = end_message(t, finish::stop_reason(finish_reason));
            (u, stopped + ended)
        } else {
            (
                StreamState {
                    pending_stop_reason: Some(finish::stop_reason(finish_reason)),
                    ..t
                },
                stopped,
            )
        }
    }
}

/// A usage replaces the one before.
pub open spec fn take_usage(s: StreamState, usage: Option<StreamMessageUsage>) -> StreamState {
    match usage {
        Some(_) => StreamState { usage, ..s },
        None => s,
    }
}

/// A usage ends a message that has waited for it.
pub open spec fn on_usage(s: StreamState, usage: Option<StreamMessageUsage>) -> Step {
    if usage is Some {
        release(s)
    } else {
        stay(s)
    }
}

/// The content that a choice adds.
pub open spec fn add_content(
    s: StreamState,
    id: Seq<char>,
    choice: wire_openai::OpenAIStreamChoiceView,
) -> Step {
    let (s1, started) = start_message(s, id);
    let (s2, thought) = on_reasoning(s1, text_of(choice.delta.reasoning_content));
    let (s3, said) = on_text(s2, text_of(choice.delta.content));
    let (s4, called) = on_tools(s3, calls_of(choice));
    (s4, started + thought + said + called)
}

/// What a choice adds.
pub open spec fn on_choice(
    s: StreamState,
    id: Seq<char>,
    choice: wire_openai::OpenAIStreamChoiceView,
) -> Step {
    let (t, added) = add_content(s, id, choice);
    let (u, finished) = on_finish(t, text_of(choice.finish_reason));
    (u, added + finished)
}

/// The pieces of tool calls that a choice has.
pub open spec fn calls_of(choice: wire_openai::OpenAIStreamChoiceView) -> Seq<
    wire_openai::OpenAIStreamToolCallView,
> {
    match choice.delta.tool_calls {
        Some(calls) => calls,
        None => Seq::empty(),
    }
}

/// A frame, and the usage it carries. Of several choices the first counts.
pub open spec fn on_chunk(
    s: StreamState,
    chunk: wire_openai::OpenAIStreamChunkView,
    usage: Option<StreamMessageUsage>,
) -> Step {
    let s1 = take_usage(s, usage);
    let (s2, told) = if chunk.choices.len() > 0 {
        on_choice(s1, chunk.id, chunk.choices[0])
    } else {
        stay(s1)
    };
    let (s3, ended) = on_usage(s2, usage);
    (s3, told + ended)
}

/// The end of the stream is announced. A message whose end waits is ended; one that has no finish
/// reason is ended as one that ended by itself.
pub open spec fn on_done(s: StreamState) -> Step {
    if s.pending_stop_reason is Some {
        release(s)
    } else if s.message_started {
        let (t, stopped) = close_blocks(s);
        let (u, ended) = end_message(t, "end_turn"@);
        (u, stopped + ended)
    } else {
        stay(s)
    }
}

/// A frame without its usage.
pub open spec fn without_usage(frame: json::Json) -> json::Json {
    match frame {
        json::Json::Object(members) => json::Json::Object(members.remove("usage"@)),
        _ => frame,
    }
}

/// The usage of a frame, as it stands there.
pub open spec fn raw_usage(frame: json::Json) -> Option<json::Json> {
    match frame {
        json::Json::Object(members) => if members.dom().contains("usage"@) {
            Some(members["usage"@])
        } else {
            None
        },
        _ => None,
    }
}

/// The complaint about a line that is no frame.
pub open spec fn bad_chunk(message: Seq<char>) -> Seq<char> {
    "parse openai stream chunk: "@ + message
}

/// What becomes of a frame, where it can be read. Its usage is read by itself, so that it does not
/// decide whether the rest can be read.
pub open spec fn on_frame(s: StreamState, frame: json::Json) -> Option<Step> {
    match wire_openai::OpenAIStreamChunk::from_json(without_usage(frame)) {
        Some(chunk) => Some(on_chunk(s, chunk, events::usage_of(raw_usage(frame)))),
        None => None,
    }
}

/// What becomes of a line, where it can be read, and whether it announces the end of the stream.
pub open spec fn on_line(s: StreamState, data: Seq<char>) -> Option<(Step, bool)> {
    if data == "[DONE]"@ {
        Some((on_done(s), true))
    } else {
        match json::json_parse(data) {
            Ok(frame) => match on_frame(s, frame) {
                Some(step) => Some((step, false)),
                None => None,
            },
            Err(_) => None,
        }
    }
}

/// The place is that of the first tool call with the key.
pub proof fn lemma_place_of(tools: Seq<ToolBlockView>, key: ToolKeyView)
    ensures
        0 <= place_of(tools, key) <= tools.len(),
        place_of(tools, key) < tools.len() ==> tools[place_of(tools, key)].key == key,
        forall|i: int| 0 <= i < place_of(tools, key) ==> (#[trigger] tools[i]).key != key,
    decreases tools.len(),
{
    if tools.len() > 0 && tools.first().key != key {
        let rest = tools.drop_first();
        lemma_place_of(rest, key);
        assert forall|i: int| 0 <= i < place_of(tools, key) implies (#[trigger] tools[i]).key
            != key by {
            if i > 0 {
                assert(rest[i - 1] == tools[i]);
            }
        }
    }
}

pub(crate) proof fn lemma_place_found(tools: Seq<ToolBlockView>, key: ToolKeyView, at: int)
    requires
        0 <= at < tools.len(),
        tools[at].key == key,
        forall|i: int| 0 <= i < at ==> (#[trigger] tools[i]).key != key,
    ensures
        place_of(tools, key) == at,
{
    lemma_place_of(tools, key);
}

pub(crate) proof fn lemma_place_missing(tools: Seq<ToolBlockView>, key: ToolKeyView)
    requires
        forall|i: int| 0 <= i < tools.len() ==> (#[trigger] tools[i]).key != key,
    ensures
        place_of(tools, key) == tools.len(),
{
    lemma_place_of(tools, key);
}

pub(crate) proof fn lemma_started_tool_has_block(
    s: StreamState,
    key: ToolKeyView,
    call: wire_openai::OpenAIStreamToolCallView,
)
    ensures
        place_of(start_tool(s, key, call).0.tools, key) < start_tool(s, key, call).0.tools.len(),
{
    lemma_place_of(s.tools, key);
    lemma_place_of(start_tool(s, key, call).0.tools, key);
    if place_of(s.tools, key) == s.tools.len() {
        assert(start_tool(s, key, call).0.tools[s.tools.len() as int].key == key);
    }
}

} // verus!
