//! What holds of single frames: what each part of a frame is told as, and when the message ends.
use crate::models::adapters::openai::events;
use crate::models::adapters::openai::events::StreamMessageUsage;
use crate::models::adapters::openai::laws;
use crate::models::adapters::openai::machine;
use crate::models::adapters::openai::response_laws;
use crate::models::adapters::openai::stream_laws;
use crate::models::wire_openai;
use vstd::prelude::*;

verus! {

/// A frame with one choice.
pub open spec fn frame(
    id: Seq<char>,
    delta: wire_openai::OpenAIStreamDeltaView,
    finish_reason: Option<Seq<char>>,
) -> laws::Input {
    laws::Input::Chunk {
        chunk: wire_openai::OpenAIStreamChunkView {
            id,
            object: Seq::empty(),
            choices: seq![wire_openai::OpenAIStreamChoiceView { index: 0, delta, finish_reason }],
            usage: None,
        },
        usage: None,
    }
}

/// A frame that has nothing but reasoning.
pub open spec fn reasoning_frame(id: Seq<char>, reasoning: Option<Seq<char>>) -> laws::Input {
    frame(
        id,
        wire_openai::OpenAIStreamDeltaView {
            role: None,
            content: None,
            reasoning_content: reasoning,
            tool_calls: None,
        },
        None,
    )
}

/// A frame that has nothing but text.
pub open spec fn text_frame(id: Seq<char>, text: Option<Seq<char>>) -> laws::Input {
    frame(
        id,
        wire_openai::OpenAIStreamDeltaView {
            role: None,
            content: text,
            reasoning_content: None,
            tool_calls: None,
        },
        None,
    )
}

/// A frame that has nothing but pieces of tool calls.
pub open spec fn calls_frame(
    id: Seq<char>,
    calls: Option<Seq<wire_openai::OpenAIStreamToolCallView>>,
) -> laws::Input {
    frame(
        id,
        wire_openai::OpenAIStreamDeltaView {
            role: None,
            content: None,
            reasoning_content: None,
            tool_calls: calls,
        },
        None,
    )
}

/// A frame that has nothing but a finish reason.
pub open spec fn finish_frame(id: Seq<char>, finish_reason: Option<Seq<char>>) -> laws::Input {
    frame(
        id,
        wire_openai::OpenAIStreamDeltaView {
            role: None,
            content: None,
            reasoning_content: None,
            tool_calls: None,
        },
        finish_reason,
    )
}

/// A frame that has nothing but a usage, and no choice.
pub open spec fn usage_frame(usage: StreamMessageUsage) -> laws::Input {
    laws::Input::Chunk {
        chunk: wire_openai::OpenAIStreamChunkView {
            id: Seq::empty(),
            object: Seq::empty(),
            choices: Seq::empty(),
            usage: None,
        },
        usage: Some(usage),
    }
}

/// The index after an index: the next one, and the lowest one after the highest.
pub open spec fn following(index: i64) -> i64 {
    if index < i64::MAX {
        (index + 1) as i64
    } else {
        i64::MIN
    }
}

/// One input after the other.
pub open spec fn both(s: machine::StreamState, a: laws::Input, b: laws::Input) -> machine::Step {
    let (t, first) = laws::step(s, a);
    let (u, second) = laws::step(t, b);
    (u, first + second)
}

/// A frame tells what its parts would tell as frames of their own: first its reasoning, then its text,
/// then its tool calls, then its finish reason.
pub proof fn law_frame_is_told_part_by_part(
    s: machine::StreamState,
    id: Seq<char>,
    delta: wire_openai::OpenAIStreamDeltaView,
    finish_reason: Option<Seq<char>>,
)
    ensures
        ({
            let (s1, thought) = laws::step(s, reasoning_frame(id, delta.reasoning_content));
            let (s2, said) = laws::step(s1, text_frame(id, delta.content));
            let (s3, called) = laws::step(s2, calls_frame(id, delta.tool_calls));
            let (s4, finished) = laws::step(s3, finish_frame(id, finish_reason));
            laws::step(s, frame(id, delta, finish_reason)) == (
                s4,
                thought + said + called + finished,
            )
        }),
{
    let none = Seq::<events::Event>::empty();
    let (a, started) = machine::start_message(s, id);
    let (b, thinking) = machine::on_reasoning(a, stream_laws::given(delta.reasoning_content));
    let (c, saying) = machine::on_text(b, stream_laws::given(delta.content));
    let calls = match delta.tool_calls {
        Some(calls) => calls,
        None => Seq::empty(),
    };
    let (d, calling) = machine::on_tools(c, calls);
    let (e, finishing) = machine::on_finish(d, stream_laws::given(finish_reason));
    lemma_started(a, b, stream_laws::given(delta.reasoning_content));
    lemma_started_text(b, stream_laws::given(delta.content));
    lemma_started_tools(c, calls);
    let (s1, thought) = laws::step(s, reasoning_frame(id, delta.reasoning_content));
    assert(s1 == b);
    assert(thought =~= started + thinking);
    let (s2, said) = laws::step(s1, text_frame(id, delta.content));
    assert(s2 == c);
    assert(said =~= saying);
    let (s3, called) = laws::step(s2, calls_frame(id, delta.tool_calls));
    assert(s3 == d);
    assert(called =~= calling);
    let (s4, finished) = laws::step(s3, finish_frame(id, finish_reason));
    assert(s4 == e);
    assert(finished =~= finishing);
    let (t, out) = laws::step(s, frame(id, delta, finish_reason));
    assert(t == e);
    assert(out =~= started + thinking + saying + calling + finishing);
    assert(out =~= thought + said + called + finished);
}

proof fn lemma_started(a: machine::StreamState, b: machine::StreamState, reasoning: Seq<char>)
    requires
        a.message_started,
        b == machine::on_reasoning(a, reasoning).0,
    ensures
        b.message_started,
{
}

proof fn lemma_started_text(b: machine::StreamState, text: Seq<char>)
    requires
        b.message_started,
    ensures
        machine::on_text(b, text).0.message_started,
{
}

proof fn lemma_started_tools(
    s: machine::StreamState,
    calls: Seq<wire_openai::OpenAIStreamToolCallView>,
)
    requires
        s.message_started,
    ensures
        machine::on_tools(s, calls).0.message_started,
    decreases calls.len(),
{
    if calls.len() > 0 {
        lemma_started_tools(s, calls.drop_last());
    }
}

proof fn lemma_tools_both(
    s: machine::StreamState,
    a: Seq<wire_openai::OpenAIStreamToolCallView>,
    b: Seq<wire_openai::OpenAIStreamToolCallView>,
)
    ensures
        ({
            let (t, first) = machine::on_tools(s, a);
            let (u, second) = machine::on_tools(t, b);
            machine::on_tools(s, a + b) == (u, first + second)
        }),
    decreases b.len(),
{
    if b.len() == 0 {
        assert(a + b =~= a);
        let first = machine::on_tools(s, a).1;
        assert(first + Seq::<events::Event>::empty() =~= first);
    } else {
        lemma_tools_both(s, a, b.drop_last());
        assert((a + b).drop_last() =~= a + b.drop_last());
        assert((a + b).last() == b.last());
        let (t, first) = machine::on_tools(s, a);
        let (u, second) = machine::on_tools(t, b.drop_last());
        let third = machine::on_tool(u, b.last()).1;
        assert(first + second + third =~= first + (second + third));
    }
}

/// Pieces of tool calls that share a frame are told as pieces that come in frames of their own, one
/// after the other.
pub proof fn law_calls_may_share_a_frame(
    s: machine::StreamState,
    id: Seq<char>,
    a: Seq<wire_openai::OpenAIStreamToolCallView>,
    b: Seq<wire_openai::OpenAIStreamToolCallView>,
)
    ensures
        laws::step(s, calls_frame(id, Some(a + b))) == both(
            s,
            calls_frame(id, Some(a)),
            calls_frame(id, Some(b)),
        ),
{
    let (c, started) = machine::start_message(s, id);
    lemma_tools_both(c, a, b);
    lemma_started_tools(c, a);
    let (t, first) = machine::on_tools(c, a);
    let second = machine::on_tools(t, b).1;
    assert(laws::step(s, calls_frame(id, Some(a))).1 =~= started + first);
    assert(laws::step(t, calls_frame(id, Some(b))).1 =~= second);
    assert(laws::step(s, calls_frame(id, Some(a + b))).1 =~= started + (first + second));
    assert(started + (first + second) =~= (started + first) + second);
}

/// A usage may come with a frame or right after it, where it is the first one.
pub proof fn law_usage_may_come_right_after(
    s: machine::StreamState,
    chunk: wire_openai::OpenAIStreamChunkView,
    usage: StreamMessageUsage,
)
    requires
        s.usage is None,
        s.message_closed ==> s.pending_stop_reason is None,
    ensures
        laws::step(s, laws::Input::Chunk { chunk, usage: Some(usage) }).1 == both(
            s,
            laws::Input::Chunk { chunk, usage: None },
            usage_frame(usage),
        ).1,
{
    let whole = laws::step(s, laws::Input::Chunk { chunk, usage: Some(usage) }).1;
    let parts = both(s, laws::Input::Chunk { chunk, usage: None }, usage_frame(usage)).1;
    let s1 = machine::StreamState { usage: Some(usage), ..s };
    if chunk.choices.len() > 0 {
        let choice = chunk.choices[0];
        lemma_usage_aside(s, usage, chunk.id, choice);
        let (t, added) = machine::add_content(s, chunk.id, choice);
        let (u, told) = machine::add_content(s1, chunk.id, choice);
        assert(added == told);
        assert(u == machine::StreamState { usage: Some(usage), ..t });
        let reason = stream_laws::given(choice.finish_reason);
        let stopped = machine::close_blocks(t).1;
        assert(machine::close_blocks(u).1 == stopped);
    }
    assert(whole =~= parts);
}

proof fn lemma_usage_aside(
    s: machine::StreamState,
    usage: StreamMessageUsage,
    id: Seq<char>,
    choice: wire_openai::OpenAIStreamChoiceView,
)
    requires
        s.usage is None,
    ensures
        ({
            let (t, out) = machine::add_content(s, id, choice);
            let s1 = machine::StreamState { usage: Some(usage), ..s };
            &&& machine::add_content(s1, id, choice) == (
                machine::StreamState { usage: Some(usage), ..t },
                out,
            )
            &&& t.usage is None
            &&& t.message_closed == s.message_closed
            &&& t.pending_stop_reason == s.pending_stop_reason
        }),
{
    let s1 = machine::StreamState { usage: Some(usage), ..s };
    let reasoning = machine::text_of(choice.delta.reasoning_content);
    let text = machine::text_of(choice.delta.content);
    let a = machine::start_message(s, id).0;
    let b = machine::on_reasoning(a, reasoning).0;
    let c = machine::on_text(b, text).0;
    let a1 = machine::start_message(s1, id).0;
    let b1 = machine::on_reasoning(a1, reasoning).0;
    let c1 = machine::on_text(b1, text).0;
    assert(a1 == machine::StreamState { usage: Some(usage), ..a });
    assert(b1 == machine::StreamState { usage: Some(usage), ..b });
    assert(c1 == machine::StreamState { usage: Some(usage), ..c });
    lemma_tools_usage_aside(c, usage, machine::calls_of(choice));
}

proof fn lemma_tools_usage_aside(
    s: machine::StreamState,
    usage: StreamMessageUsage,
    calls: Seq<wire_openai::OpenAIStreamToolCallView>,
)
    requires
        s.usage is None,
    ensures
        ({
            let (t, out) = machine::on_tools(s, calls);
            let s1 = machine::StreamState { usage: Some(usage), ..s };
            &&& machine::on_tools(s1, calls) == (
                machine::StreamState { usage: Some(usage), ..t },
                out,
            )
            &&& t.usage is None
            &&& t.message_closed == s.message_closed
            &&& t.pending_stop_reason == s.pending_stop_reason
        }),
    decreases calls.len(),
{
    if calls.len() > 0 {
        lemma_tools_usage_aside(s, usage, calls.drop_last());
        let (t, before) = machine::on_tools(s, calls.drop_last());
        let t1 = machine::StreamState { usage: Some(usage), ..t };
        let call = calls.last();
        assert(machine::on_tool(t1, call).0 == machine::StreamState {
            usage: Some(usage),
            ..machine::on_tool(t, call).0
        });
    }
}

/// Of a frame nothing counts but its id, its usage, and of its first choice what is added and why it
/// finished: no other choice, no index, no role, no name of an object.
pub proof fn law_nothing_else_of_a_frame_counts(
    s: machine::StreamState,
    a: wire_openai::OpenAIStreamChunkView,
    b: wire_openai::OpenAIStreamChunkView,
    usage: Option<StreamMessageUsage>,
)
    requires
        a.id == b.id,
        a.choices.len() > 0 <==> b.choices.len() > 0,
        a.choices.len() > 0 ==> {
            let c = a.choices[0];
            let d = b.choices[0];
            &&& stream_laws::given(c.delta.content) == stream_laws::given(d.delta.content)
            &&& stream_laws::given(c.delta.reasoning_content) == stream_laws::given(
                d.delta.reasoning_content,
            )
            &&& c.delta.tool_calls == d.delta.tool_calls
            &&& stream_laws::given(c.finish_reason) == stream_laws::given(d.finish_reason)
        },
    ensures
        laws::step(s, laws::Input::Chunk { chunk: a, usage }) == laws::step(
            s,
            laws::Input::Chunk { chunk: b, usage },
        ),
{
}

/// The first frame with a choice starts the message under its id, before anything else is told; no
/// other input starts one.
pub proof fn law_first_choice_starts_the_message(s: machine::StreamState, input: laws::Input)
    ensures
        ({
            let (t, out) = laws::step(s, input);
            let opens = !s.message_started && input is Chunk && input->chunk.choices.len() > 0;
            &&& opens ==> out.len() > 0 && out[0] == (events::Event::MessageStart {
                id: input->chunk.id,
            })
            &&& t.message_started <==> s.message_started || opens
        }),
{
    match input {
        laws::Input::Chunk { chunk, usage } => {
            if chunk.choices.len() > 0 {
                let s1 = machine::take_usage(s, usage);
                let choice = chunk.choices[0];
                let (a, started) = machine::start_message(s1, chunk.id);
                let reasoning = machine::text_of(choice.delta.reasoning_content);
                let b = machine::on_reasoning(a, reasoning).0;
                let c = machine::on_text(b, machine::text_of(choice.delta.content)).0;
                lemma_started(a, b, reasoning);
                lemma_started_text(b, machine::text_of(choice.delta.content));
                lemma_started_tools(c, machine::calls_of(choice));
            }
        },
        _ => {},
    }
}

/// Whatever the first frame with a choice adds, it adds behind the start of the message, and as to a
/// message that has started.
pub proof fn law_start_is_told_and_then_the_rest(
    s: machine::StreamState,
    chunk: wire_openai::OpenAIStreamChunkView,
    usage: Option<StreamMessageUsage>,
)
    requires
        !s.message_started,
        chunk.choices.len() > 0,
    ensures
        ({
            let input = laws::Input::Chunk { chunk, usage };
            let begun = machine::StreamState { message_started: true, ..s };
            let (t, out) = laws::step(begun, input);
            laws::step(s, input) == (t, seq![events::Event::MessageStart { id: chunk.id }] + out)
        }),
{
    let input = laws::Input::Chunk { chunk, usage };
    let begun = machine::StreamState { message_started: true, ..s };
    let start = seq![events::Event::MessageStart { id: chunk.id }];
    let s1 = machine::take_usage(s, usage);
    let b1 = machine::take_usage(begun, usage);
    let choice = chunk.choices[0];
    assert(machine::start_message(s1, chunk.id).0 == b1);
    assert(machine::start_message(b1, chunk.id).0 == b1);
    let (t, added) = machine::add_content(b1, chunk.id, choice);
    assert(machine::add_content(s1, chunk.id, choice).1 =~= start + added);
    let (u, told) = machine::on_choice(b1, chunk.id, choice);
    assert(machine::on_choice(s1, chunk.id, choice).1 =~= start + told);
    assert(laws::step(s, input).1 =~= start + laws::step(begun, input).1);
}

/// Reasoning goes to the thinking block as one piece. The block starts with the first reasoning, under
/// the next index; an open text block stops before it.
pub proof fn law_reasoning_is_told_in_one_piece(
    s: machine::StreamState,
    id: Seq<char>,
    reasoning: Seq<char>,
)
    requires
        s.message_started,
        reasoning.len() > 0,
    ensures
        ({
            let (t, out) = laws::step(s, reasoning_frame(id, Some(reasoning)));
            let piece = events::Event::BlockDelta {
                index: t.thinking_block_index,
                piece: events::Piece::Thinking(reasoning),
            };
            let start = events::Event::BlockStart {
                index: t.thinking_block_index,
                block: events::Block::Thinking,
            };
            let stop = events::Event::BlockStop { index: s.block_index };
            &&& s.thinking_started ==> out == seq![piece] && t == s
            &&& !s.thinking_started && !s.text_started ==> out == seq![start, piece] && t == (
            machine::StreamState {
                thinking_started: true,
                thinking_block_index: s.block_index,
                ..s
            })
            &&& !s.thinking_started && s.text_started ==> out == seq![stop, start, piece] && t == (
            machine::StreamState {
                thinking_started: true,
                thinking_block_index: following(s.block_index),
                block_index: following(s.block_index),
                text_started: false,
                ..s
            })
        }),
{
    let (t, out) = laws::step(s, reasoning_frame(id, Some(reasoning)));
    let piece = events::Event::BlockDelta {
        index: t.thinking_block_index,
        piece: events::Piece::Thinking(reasoning),
    };
    let start = events::Event::BlockStart {
        index: t.thinking_block_index,
        block: events::Block::Thinking,
    };
    let stop = events::Event::BlockStop { index: s.block_index };
    if s.thinking_started {
        assert(out =~= seq![piece]);
    } else if s.text_started {
        assert(out =~= seq![stop, start, piece]);
    } else {
        assert(out =~= seq![start, piece]);
    }
}

/// Text goes to a text block as one piece. Where none is open one starts, under the next index; an
/// open thinking block stops before it.
pub proof fn law_text_is_told_in_one_piece(s: machine::StreamState, id: Seq<char>, text: Seq<char>)
    requires
        s.message_started,
        text.len() > 0,
    ensures
        ({
            let (t, out) = laws::step(s, text_frame(id, Some(text)));
            let thinks = s.thinking_started && !s.thinking_stopped;
            let piece = events::Event::BlockDelta {
                index: t.block_index,
                piece: events::Piece::Text(text),
            };
            let start = events::Event::BlockStart {
                index: t.block_index,
                block: events::Block::Text,
            };
            let stop = events::Event::BlockStop { index: s.thinking_block_index };
            &&& !thinks && s.text_started ==> out == seq![piece] && t == s
            &&& !thinks && !s.text_started ==> out == seq![start, piece] && t == (
            machine::StreamState { text_started: true, ..s })
            &&& thinks && !s.text_started ==> out == seq![stop, start, piece] && t == (
            machine::StreamState {
                text_started: true,
                thinking_stopped: true,
                block_index: following(s.block_index),
                ..s
            })
        }),
{
    let (t, out) = laws::step(s, text_frame(id, Some(text)));
    let thinks = s.thinking_started && !s.thinking_stopped;
    let piece = events::Event::BlockDelta {
        index: t.block_index,
        piece: events::Piece::Text(text),
    };
    let start = events::Event::BlockStart { index: t.block_index, block: events::Block::Text };
    let stop = events::Event::BlockStop { index: s.thinking_block_index };
    if !thinks && s.text_started {
        assert(out =~= seq![piece]);
    } else if !thinks {
        assert(out =~= seq![start, piece]);
    } else if !s.text_started {
        assert(out =~= seq![stop, start, piece]);
    }
}

/// The piece belongs to a tool call that has come before.
pub open spec fn has_come(s: machine::StreamState, key: machine::ToolKeyView) -> bool {
    exists|i: int| 0 <= i < s.tools.len() && (#[trigger] s.tools[i]).key == key
}

/// What a piece of a tool call belongs to: the call with its index; without an index, the one with its
/// id; without either, the last one, or the one with the index 0 where there was none.
pub open spec fn belongs_to(
    s: machine::StreamState,
    call: wire_openai::OpenAIStreamToolCallView,
    key: machine::ToolKeyView,
) -> bool {
    if call.index is Some {
        key == machine::ToolKeyView::Index(call.index->Some_0)
    } else if stream_laws::given(call.id).len() > 0 {
        key == machine::ToolKeyView::Id(stream_laws::given(call.id))
    } else if s.last_tool_key is Some {
        Some(key) == s.last_tool_key
    } else {
        key == machine::ToolKeyView::Index(0)
    }
}

/// The first piece of a tool call starts a block for it, with the id and the name of the call, under
/// the next index; what is open of thinking and text stops before it. The arguments that come with it
/// are told whole, as one piece of that block; where none come, none are told.
pub proof fn law_first_piece_starts_a_tool_block(
    s: machine::StreamState,
    id: Seq<char>,
    call: wire_openai::OpenAIStreamToolCallView,
    key: machine::ToolKeyView,
)
    requires
        s.message_started,
        !(s.thinking_started && !s.thinking_stopped && s.text_started),
        belongs_to(s, call, key),
        !has_come(s, key),
    ensures
        ({
            let (t, out) = laws::step(s, calls_frame(id, Some(seq![call])));
            let thinks = s.thinking_started && !s.thinking_stopped;
            let index = if thinks || s.text_started {
                following(s.block_index)
            } else {
                s.block_index
            };
            let stops = if thinks {
                seq![events::Event::BlockStop { index: s.thinking_block_index }]
            } else if s.text_started {
                seq![events::Event::BlockStop { index: s.block_index }]
            } else {
                Seq::empty()
            };
            let start = events::Event::BlockStart {
                index,
                block: events::Block::ToolUse { id: call.id, name: call.function.name },
            };
            let raw = call.function.arguments;
            let pieces = if raw.len() > 0 {
                seq![events::Event::BlockDelta { index, piece: events::Piece::Input(raw) }]
            } else {
                Seq::empty()
            };
            &&& out == stops + seq![start] + pieces
            &&& t == (machine::StreamState {
                tools: s.tools.push(machine::ToolBlockView { key, index, args: raw }),
                last_tool_key: Some(key),
                block_index: following(index),
                text_started: false,
                thinking_stopped: s.thinking_stopped || s.thinking_started,
                ..s
            })
        }),
{
    let calls = seq![call];
    reveal_with_fuel(machine::on_tools, 2);
    assert(calls.drop_last() =~= Seq::empty());
    assert(calls.last() == call);
    assert(machine::tool_key(s, call) == key);
    machine::lemma_place_of(s.tools, key);
    assert(machine::place_of(s.tools, key) == s.tools.len());
    let s1 = machine::StreamState { last_tool_key: Some(key), ..s };
    let (t, started) = machine::start_tool(s1, key, call);
    machine::lemma_place_found(t.tools, key, s.tools.len() as int);
    let (u, added) = machine::add_input(t, key, call.function.arguments);
    let (v, out) = laws::step(s, calls_frame(id, Some(calls)));
    assert(v == u);
    assert(out =~= started + added);
    let thinks = s.thinking_started && !s.thinking_stopped;
    let index = t.tools[s.tools.len() as int].index;
    let start = events::Event::BlockStart {
        index,
        block: events::Block::ToolUse { id: call.id, name: call.function.name },
    };
    if thinks {
        assert(started =~= seq![events::Event::BlockStop { index: s.thinking_block_index }]
            + seq![start]);
    } else if s.text_started {
        assert(started =~= seq![events::Event::BlockStop { index: s.block_index }] + seq![start]);
    } else {
        assert(started =~= Seq::empty() + seq![start]);
    }
    let raw = call.function.arguments;
    let last = machine::ToolBlockView { key, index, args: raw };
    assert(Seq::<char>::empty() + raw =~= raw);
    if raw.len() == 0 {
        assert(raw =~= Seq::empty());
    }
    assert(u.tools =~= s.tools.push(last));
}

/// A later piece of a tool call tells nothing but the arguments that it adds, as one piece of the
/// block of that call: the rest, where it starts with all that was told and is longer; and else all of
/// it.
pub proof fn law_later_piece_goes_to_its_block(
    s: machine::StreamState,
    id: Seq<char>,
    call: wire_openai::OpenAIStreamToolCallView,
    key: machine::ToolKeyView,
    at: int,
)
    requires
        s.message_started,
        belongs_to(s, call, key),
        0 <= at < s.tools.len(),
        s.tools[at].key == key,
        forall|i: int| 0 <= i < at ==> (#[trigger] s.tools[i]).key != key,
    ensures
        ({
            let (t, out) = laws::step(s, calls_frame(id, Some(seq![call])));
            let raw = call.function.arguments;
            let sent = s.tools[at].args;
            let more = if sent.len() > 0 && raw.len() > sent.len() && raw.take(sent.len() as int)
                == sent {
                raw.skip(sent.len() as int)
            } else {
                raw
            };
            &&& raw.len() == 0 ==> out.len() == 0 && t == (machine::StreamState {
                last_tool_key: Some(key),
                ..s
            })
            &&& raw.len() > 0 ==> out == seq![
                events::Event::BlockDelta {
                    index: s.tools[at].index,
                    piece: events::Piece::Input(more),
                },
            ] && t == (machine::StreamState {
                last_tool_key: Some(key),
                tools: s.tools.update(
                    at,
                    machine::ToolBlockView { args: sent + more, ..s.tools[at] },
                ),
                ..s
            })
        }),
{
    let calls = seq![call];
    reveal_with_fuel(machine::on_tools, 2);
    assert(calls.drop_last() =~= Seq::empty());
    assert(calls.last() == call);
    assert(machine::tool_key(s, call) == key);
    machine::lemma_place_found(s.tools, key, at);
    let s1 = machine::StreamState { last_tool_key: Some(key), ..s };
    let (u, added) = machine::add_input(s1, key, call.function.arguments);
    let (v, out) = laws::step(s, calls_frame(id, Some(calls)));
    assert(v == u);
    assert(out =~= added);
    let raw = call.function.arguments;
    let sent = s.tools[at].args;
    if sent.len() <= raw.len() {
        if raw.take(sent.len() as int) == sent {
            assert(sent.is_prefix_of(raw));
        }
        if sent.is_prefix_of(raw) {
            assert(raw.take(sent.len() as int) =~= sent);
        }
    }
}

/// The end of a message with that finish reason and that usage.
pub open spec fn is_end_for(
    out: Seq<events::Event>,
    finish_reason: Seq<char>,
    usage: Option<StreamMessageUsage>,
) -> bool {
    &&& out.len() == 2
    &&& out[0] is MessageDelta
    &&& response_laws::stops_for(finish_reason, out[0]->stop_reason)
    &&& out[0]->MessageDelta_usage == usage
    &&& out[1] is MessageStop
}

/// The first finish reason stops what is open: the text block, or else the thinking block, and then
/// the blocks of all tool calls in their order. The end of the message follows where its usage is
/// known, and else waits; a usage that comes then is told at once with the end, and so does the
/// announcement of the end or a flush tell the end without one.
pub proof fn law_finish_reason_ends_the_message(
    s: machine::StreamState,
    id: Seq<char>,
    finish_reason: Seq<char>,
    usage: StreamMessageUsage,
)
    requires
        s.message_started,
        !s.message_closed,
        !s.blocks_closed,
        s.pending_stop_reason is None,
        finish_reason.len() > 0,
    ensures
        ({
            let (t, out) = laws::step(s, finish_frame(id, Some(finish_reason)));
            let last = if s.text_started {
                seq![events::Event::BlockStop { index: s.block_index }]
            } else if s.thinking_started && !s.thinking_stopped {
                seq![events::Event::BlockStop { index: s.thinking_block_index }]
            } else {
                Seq::empty()
            };
            let tools = Seq::new(
                s.tools.len(),
                |i: int| events::Event::BlockStop { index: s.tools[i].index },
            );
            let stops = last + tools;
            let n = stops.len() as int;
            &&& out.len() >= n && out.take(n) == stops
            &&& t.blocks_closed
            &&& t.thinking_stopped == (s.thinking_stopped || (s.thinking_started
                && !s.text_started))
            &&& t == (machine::StreamState {
                blocks_closed: true,
                thinking_stopped: t.thinking_stopped,
                message_closed: t.message_closed,
                pending_stop_reason: t.pending_stop_reason,
                ..s
            })
            &&& s.usage is Some ==> is_end_for(out.skip(n), finish_reason, s.usage)
                && t.message_closed && t.pending_stop_reason is None
            &&& s.usage is None ==> {
                &&& out.len() == n
                &&& !t.message_closed
                &&& is_end_for(
                    laws::step(t, usage_frame(usage)).1,
                    finish_reason,
                    Some(usage),
                )
                &&& is_end_for(laws::step(t, laws::Input::Done).1, finish_reason, None)
                &&& is_end_for(laws::step(t, laws::Input::Flush).1, finish_reason, None)
                &&& laws::step(t, usage_frame(usage)).0 == (machine::StreamState {
                    message_closed: true,
                    pending_stop_reason: None,
                    usage: Some(usage),
                    ..t
                })
                &&& laws::step(t, laws::Input::Done).0 == (machine::StreamState {
                    message_closed: true,
                    pending_stop_reason: None,
                    ..t
                })
                &&& laws::step(t, laws::Input::Flush).0 == (machine::StreamState {
                    message_closed: true,
                    pending_stop_reason: None,
                    ..t
                })
            }
        }),
{
    response_laws::law_stop_reason_goes_by_its_name(finish_reason);
    let (t, out) = laws::step(s, finish_frame(id, Some(finish_reason)));
    let stops = machine::close_blocks(s).1;
    let n = stops.len() as int;
    let last = if s.text_started {
        seq![events::Event::BlockStop { index: s.block_index }]
    } else if s.thinking_started && !s.thinking_stopped {
        seq![events::Event::BlockStop { index: s.thinking_block_index }]
    } else {
        Seq::empty()
    };
    let tools = Seq::new(
        s.tools.len(),
        |i: int| events::Event::BlockStop { index: s.tools[i].index },
    );
    assert(stops =~= last + tools);
    let finished = machine::on_finish(s, finish_reason).1;
    assert(out =~= finished);
    assert(out.take(n) =~= stops);
    if s.usage is Some {
        assert(out.skip(n) =~= machine::end_message(
            machine::close_blocks(s).0,
            crate::models::adapters::openai::finish::stop_reason(finish_reason),
        ).1);
    }
}

/// An end that waits is told by the next usage, with that usage, and by an announcement or a flush, with
/// the usage that is known; whatever else was told in between does not matter. It is told with the stop
/// reason that waits, and nothing is told beside it.
pub proof fn law_waiting_end_is_told(
    s: machine::StreamState,
    usage: StreamMessageUsage,
    input: laws::Input,
)
    requires
        !s.message_closed,
        s.pending_stop_reason is Some,
        input is Done || input is Flush || input == usage_frame(usage),
    ensures
        ({
            let (t, out) = laws::step(s, input);
            let known = if input is Chunk {
                Some(usage)
            } else {
                s.usage
            };
            &&& out == seq![
                events::Event::MessageDelta {
                    stop_reason: s.pending_stop_reason->Some_0,
                    usage: known,
                },
                events::Event::MessageStop,
            ]
            &&& t == (machine::StreamState {
                message_closed: true,
                pending_stop_reason: None,
                usage: known,
                ..s
            })
        }),
{
    let out = laws::step(s, input).1;
    let known = if input is Chunk {
        Some(usage)
    } else {
        s.usage
    };
    assert(out =~= seq![
        events::Event::MessageDelta { stop_reason: s.pending_stop_reason->Some_0, usage: known },
        events::Event::MessageStop,
    ]);
}

/// Once a finish reason waits, or the message has ended, no finish reason tells or changes anything; and
/// a flush tells and changes nothing where nothing waits.
pub proof fn law_later_finish_reasons_do_not_count(
    s: machine::StreamState,
    id: Seq<char>,
    finish_reason: Seq<char>,
)
    ensures
        s.message_started && (s.message_closed || s.pending_stop_reason is Some) ==> laws::step(
            s,
            finish_frame(id, Some(finish_reason)),
        ).0 == s && laws::step(s, finish_frame(id, Some(finish_reason))).1.len() == 0,
        s.pending_stop_reason is None ==> laws::step(s, laws::Input::Flush).0 == s && laws::step(
            s,
            laws::Input::Flush,
        ).1.len() == 0,
{
}

/// A stream whose end is announced before any finish reason is told as one that ended by itself: what
/// is open stops, the text block or else the thinking block and then the blocks of all tool calls, and
/// the message ends with the usage that is known. A stream that has told nothing is not ended.
pub proof fn law_announced_end_without_reason(s: machine::StreamState)
    requires
        !s.message_closed,
        !s.blocks_closed,
        s.pending_stop_reason is None,
    ensures
        ({
            let (t, out) = laws::step(s, laws::Input::Done);
            let last = if s.text_started {
                seq![events::Event::BlockStop { index: s.block_index }]
            } else if s.thinking_started && !s.thinking_stopped {
                seq![events::Event::BlockStop { index: s.thinking_block_index }]
            } else {
                Seq::empty()
            };
            let tools = Seq::new(
                s.tools.len(),
                |i: int| events::Event::BlockStop { index: s.tools[i].index },
            );
            let end = seq![
                events::Event::MessageDelta { stop_reason: "end_turn"@, usage: s.usage },
                events::Event::MessageStop,
            ];
            &&& !s.message_started ==> out.len() == 0 && t == s
            &&& s.message_started ==> out == last + tools + end && t == (machine::StreamState {
                message_closed: true,
                blocks_closed: true,
                thinking_stopped: s.thinking_stopped || (s.thinking_started && !s.text_started),
                ..s
            })
        }),
{
    if s.message_started {
        let tools = Seq::new(
            s.tools.len(),
            |i: int| events::Event::BlockStop { index: s.tools[i].index },
        );
        assert(machine::tool_stops(s.tools) =~= tools);
    }
}

/// A frame without anything in it tells nothing once the message has started, and changes nothing.
pub proof fn law_empty_frame_tells_nothing(s: machine::StreamState, id: Seq<char>)
    requires
        s.message_started,
    ensures
        laws::step(s, finish_frame(id, None)).0 == s,
        laws::step(s, finish_frame(id, None)).1.len() == 0,
        laws::step(s, reasoning_frame(id, Some(Seq::empty()))).0 == s,
        laws::step(s, reasoning_frame(id, Some(Seq::empty()))).1.len() == 0,
        laws::step(s, text_frame(id, Some(Seq::empty()))).0 == s,
        laws::step(s, text_frame(id, Some(Seq::empty()))).1.len() == 0,
        laws::step(s, calls_frame(id, Some(Seq::empty()))).0 == s,
        laws::step(s, calls_frame(id, Some(Seq::empty()))).1.len() == 0,
{
}

/// A usage that comes while nothing waits for it is kept, and tells nothing; the one that comes last is
/// the one that is kept.
pub proof fn law_usage_is_kept(s: machine::StreamState, usage: StreamMessageUsage)
    requires
        s.pending_stop_reason is None,
    ensures
        laws::step(s, usage_frame(usage)).0 == (machine::StreamState { usage: Some(usage), ..s }),
        laws::step(s, usage_frame(usage)).1.len() == 0,
{
}

/// The message of a stream ends with the input that brings the second of its finish reason and its
/// usage, or that announces or flushes an end that waits, or that announces the end of a stream
/// without finish reason; it ends with no other.
pub proof fn law_message_ends_in_time(inputs: Seq<laws::Input>, input: laws::Input)
    ensures
        ({
            let all = inputs.push(input);
            let s = laws::run(inputs).0;
            let t = laws::run(all).0;
            let finished = laws::first_finish(all) is Some;
            let counted = laws::last_usage(all) is Some;
            &&& finished && counted ==> t.message_closed
            &&& input is Done && t.message_started ==> t.message_closed
            &&& input is Flush && finished ==> t.message_closed
            &&& t.message_closed ==> s.message_closed || (finished && counted) || (input is Done
                && t.message_started) || (input is Flush && finished)
        }),
    decreases inputs.len(),
{
    let all = inputs.push(input);
    assert(all.drop_last() =~= inputs);
    laws::law_state_knows_reason_and_usage(inputs);
    laws::law_state_knows_reason_and_usage(all);
    let s = laws::run(inputs).0;
    if inputs.len() > 0 {
        law_message_ends_in_time(inputs.drop_last(), inputs.last());
        assert(inputs.drop_last().push(inputs.last()) =~= inputs);
    }
    match input {
        laws::Input::Chunk { chunk, usage } => {
            let s1 = machine::take_usage(s, usage);
            if chunk.choices.len() > 0 {
                laws::law_content_leaves_the_end_alone(s1, chunk.id, chunk.choices[0]);
            }
        },
        _ => {},
    }
}

} // verus!
