//! What holds of the arguments of tool calls in every stream.
use crate::models::adapters::openai::events;
use crate::models::adapters::openai::laws;
use crate::models::adapters::openai::machine;
use crate::models::wire_openai;
use vstd::prelude::*;

verus! {

/// The input that an event adds to the block with that index.
pub open spec fn piece_of(e: events::Event, index: i64) -> Seq<char> {
    match e {
        events::Event::BlockDelta { index: i, piece: events::Piece::Input(piece) } => if i
            == index {
            piece
        } else {
            Seq::empty()
        },
        _ => Seq::empty(),
    }
}

/// The input of the block with that index: its pieces, one after the other.
pub open spec fn input_of(out: Seq<events::Event>, index: i64) -> Seq<char>
    decreases out.len(),
{
    if out.len() == 0 {
        Seq::empty()
    } else {
        input_of(out.drop_last(), index) + piece_of(out.last(), index)
    }
}

/// How many blocks start.
pub open spec fn starts(out: Seq<events::Event>) -> int
    decreases out.len(),
{
    if out.len() == 0 {
        0
    } else {
        starts(out.drop_last()) + (if out.last() is BlockStart {
            1int
        } else {
            0int
        })
    }
}

proof fn lemma_both(a: Seq<events::Event>, b: Seq<events::Event>)
    ensures
        starts(a + b) == starts(a) + starts(b),
        starts(b) >= 0,
        forall|index: i64| #[trigger] input_of(a + b, index) == input_of(a, index) + input_of(
            b,
            index,
        ),
    decreases b.len(),
{
    if b.len() == 0 {
        assert(a + b =~= a);
        assert forall|index: i64| #[trigger] input_of(a + b, index) == input_of(a, index)
            + input_of(b, index) by {
            assert(input_of(a, index) + Seq::<char>::empty() =~= input_of(a, index));
        }
    } else {
        lemma_both(a, b.drop_last());
        assert((a + b).drop_last() =~= a + b.drop_last());
        assert((a + b).last() == b.last());
        assert forall|index: i64| #[trigger] input_of(a + b, index) == input_of(a, index)
            + input_of(b, index) by {
            assert(input_of(a + b.drop_last(), index) == input_of(a, index) + input_of(
                b.drop_last(),
                index,
            ));
            assert(input_of(a + b, index) =~= input_of(a, index) + input_of(b, index));
        }
    }
}

proof fn lemma_one(e: events::Event)
    ensures
        starts(seq![e]) == (if e is BlockStart {
            1int
        } else {
            0int
        }),
        forall|index: i64| #[trigger] input_of(seq![e], index) == piece_of(e, index),
{
    let out = seq![e];
    assert(out.drop_last() =~= Seq::empty());
    reveal_with_fuel(starts, 2);
    assert forall|index: i64| #[trigger] input_of(out, index) == piece_of(e, index) by {
        reveal_with_fuel(input_of, 2);
        assert(Seq::<char>::empty() + piece_of(e, index) =~= piece_of(e, index));
    }
}

/// No index above this has been given out.
spec fn reach(s: machine::StreamState) -> int {
    s.block_index + (if machine::thinking_open(s) {
        1int
    } else {
        0int
    }) + (if s.text_started {
        1int
    } else {
        0int
    })
}

/// The arguments that the state holds are the input that the events have told.
spec fn tallied(s: machine::StreamState, out: Seq<events::Event>) -> bool {
    &&& 0 <= s.block_index
    &&& reach(s) <= starts(out)
    &&& forall|k: int|
        0 <= k < s.tools.len() ==> (#[trigger] s.tools[k]).index < s.block_index && input_of(
            out,
            s.tools[k].index,
        ) == s.tools[k].args
    &&& forall|j: int, k: int|
        0 <= j < k < s.tools.len() ==> (#[trigger] s.tools[j]).index < (#[trigger] s.tools[k]).index
            && s.tools[j].key != s.tools[k].key
    &&& forall|i: i64| i >= s.block_index ==> #[trigger] input_of(out, i) == Seq::<char>::empty()
}

/// A step that tells no input.
proof fn lemma_plain(
    s: machine::StreamState,
    out: Seq<events::Event>,
    t: machine::StreamState,
    more: Seq<events::Event>,
)
    requires
        tallied(s, out),
        t.tools == s.tools,
        s.block_index <= t.block_index,
        reach(t) - reach(s) <= starts(more),
        forall|i: i64| #[trigger] input_of(more, i) == Seq::<char>::empty(),
    ensures
        tallied(t, out + more),
{
    lemma_both(out, more);
    assert forall|i: i64| #[trigger] input_of(out + more, i) == input_of(out, i) by {
        assert(input_of(out, i) + Seq::<char>::empty() =~= input_of(out, i));
    }
}

/// A step that tells nothing.
proof fn lemma_silent(s: machine::StreamState, out: Seq<events::Event>, t: machine::StreamState)
    requires
        tallied(s, out),
        t.tools == s.tools,
        s.block_index == t.block_index,
        reach(t) <= reach(s),
    ensures
        tallied(t, out + Seq::<events::Event>::empty()),
{
    assert(out + Seq::<events::Event>::empty() =~= out);
}

proof fn lemma_stop_thinking(s: machine::StreamState, out: Seq<events::Event>)
    requires
        tallied(s, out),
        starts(out) <= i64::MAX,
    ensures
        tallied(machine::stop_thinking(s).0, out + machine::stop_thinking(s).1),
        starts(out + machine::stop_thinking(s).1) == starts(out),
{
    let (t, more) = machine::stop_thinking(s);
    lemma_both(out, more);
    if machine::thinking_open(s) {
        lemma_one(events::Event::BlockStop { index: s.thinking_block_index });
        lemma_plain(s, out, t, more);
    } else {
        lemma_silent(s, out, t);
    }
}

proof fn lemma_stop_text(s: machine::StreamState, out: Seq<events::Event>)
    requires
        tallied(s, out),
        starts(out) <= i64::MAX,
    ensures
        tallied(machine::stop_text(s).0, out + machine::stop_text(s).1),
        starts(out + machine::stop_text(s).1) == starts(out),
{
    let (t, more) = machine::stop_text(s);
    lemma_both(out, more);
    if s.text_started {
        lemma_one(events::Event::BlockStop { index: s.block_index });
        lemma_plain(s, out, t, more);
    } else {
        lemma_silent(s, out, t);
    }
}

proof fn lemma_reasoning(s: machine::StreamState, out: Seq<events::Event>, text: Seq<char>)
    requires
        tallied(s, out),
        starts(out + machine::on_reasoning(s, text).1) <= i64::MAX,
    ensures
        tallied(machine::on_reasoning(s, text).0, out + machine::on_reasoning(s, text).1),
{
    let (u, more) = machine::on_reasoning(s, text);
    if text.len() == 0 {
        lemma_silent(s, out, u);
    } else {
        let (t, begun) = machine::start_thinking(s);
        let piece = events::Event::BlockDelta {
            index: t.thinking_block_index,
            piece: events::Piece::Thinking(text),
        };
        lemma_both(out, more);
        lemma_both(begun, seq![piece]);
        lemma_one(piece);
        assert(out + more =~= (out + begun) + seq![piece]);
        if s.thinking_started {
            lemma_silent(s, out, t);
        } else {
            let (r, stopped) = machine::stop_text(s);
            let start = events::Event::BlockStart {
                index: r.block_index,
                block: events::Block::Thinking,
            };
            lemma_both(stopped, seq![start]);
            lemma_one(start);
            lemma_both(Seq::empty(), stopped);
            lemma_both(out, stopped);
            lemma_stop_text(s, out);
            lemma_plain(r, out + stopped, t, seq![start]);
            assert(out + begun =~= (out + stopped) + seq![start]);
        }
        lemma_plain(t, out + begun, u, seq![piece]);
    }
}

proof fn lemma_text(s: machine::StreamState, out: Seq<events::Event>, text: Seq<char>)
    requires
        tallied(s, out),
        starts(out + machine::on_text(s, text).1) <= i64::MAX,
    ensures
        tallied(machine::on_text(s, text).0, out + machine::on_text(s, text).1),
{
    let (v, more) = machine::on_text(s, text);
    if text.len() == 0 {
        lemma_silent(s, out, v);
    } else {
        let (t, stopped) = machine::stop_thinking(s);
        let (u, started) = machine::start_text(t);
        let piece = events::Event::BlockDelta {
            index: u.block_index,
            piece: events::Piece::Text(text),
        };
        lemma_both(out, more);
        lemma_stop_thinking(s, out);
        if t.text_started {
            lemma_silent(t, out + stopped, u);
        } else {
            lemma_one(
                events::Event::BlockStart { index: t.block_index, block: events::Block::Text },
            );
            lemma_plain(t, out + stopped, u, started);
        }
        lemma_one(piece);
        lemma_plain(u, out + stopped + started, v, seq![piece]);
        assert(out + more =~= out + stopped + started + seq![piece]);
    }
}

proof fn lemma_start_tool(
    s: machine::StreamState,
    out: Seq<events::Event>,
    key: machine::ToolKeyView,
    call: wire_openai::OpenAIStreamToolCallView,
)
    requires
        tallied(s, out),
        starts(out + machine::start_tool(s, key, call).1) <= i64::MAX,
    ensures
        tallied(
            machine::start_tool(s, key, call).0,
            out + machine::start_tool(s, key, call).1,
        ),
{
    let (v, more) = machine::start_tool(s, key, call);
    if machine::place_of(s.tools, key) < s.tools.len() {
        lemma_silent(s, out, v);
    } else {
        let (t, thought) = machine::stop_thinking(s);
        let (u, said) = machine::stop_text(t);
        let start = events::Event::BlockStart {
            index: u.block_index,
            block: events::Block::ToolUse { id: call.id, name: call.function.name },
        };
        lemma_both(out, more);
        lemma_stop_thinking(s, out);
        lemma_stop_text(t, out + thought);
        let so_far = out + thought + said;
        assert(out + more =~= so_far + seq![start]);
        lemma_both(so_far, seq![start]);
        lemma_one(start);
        assert forall|i: i64| #[trigger] input_of(out + more, i) == input_of(so_far, i) by {
            assert(input_of(so_far, i) + Seq::<char>::empty() =~= input_of(so_far, i));
        }
        assert forall|k: int| 0 <= k < v.tools.len() implies (#[trigger] v.tools[k]).index
            < v.block_index && input_of(out + more, v.tools[k].index) == v.tools[k].args by {
            if k < u.tools.len() {
                assert(v.tools[k] == u.tools[k]);
            }
        }
        machine::lemma_place_of(s.tools, key);
        assert forall|j: int, k: int| 0 <= j < k < v.tools.len() implies (
        #[trigger] v.tools[j]).index < (#[trigger] v.tools[k]).index && v.tools[j].key
            != v.tools[k].key by {
            assert(v.tools[j] == u.tools[j]);
            assert(s.tools[j].key != key);
            if k < u.tools.len() {
                assert(v.tools[k] == u.tools[k]);
            }
        }
    }
}

proof fn lemma_add_input(
    s: machine::StreamState,
    out: Seq<events::Event>,
    key: machine::ToolKeyView,
    raw: Seq<char>,
)
    requires
        tallied(s, out),
        machine::place_of(s.tools, key) < s.tools.len(),
    ensures
        tallied(machine::add_input(s, key, raw).0, out + machine::add_input(s, key, raw).1),
{
    let (t, more) = machine::add_input(s, key, raw);
    if raw.len() == 0 {
        lemma_silent(s, out, t);
    } else {
        machine::lemma_place_of(s.tools, key);
        let at = machine::place_of(s.tools, key);
        let tool = s.tools[at];
        let piece = machine::unsent(tool.args, raw);
        let e = events::Event::BlockDelta { index: tool.index, piece: events::Piece::Input(piece) };
        lemma_both(out, more);
        lemma_one(e);
        assert(more == seq![e]);
        assert forall|i: i64| i != tool.index implies #[trigger] input_of(out + more, i)
            == input_of(out, i) by {
            assert(input_of(out, i) + Seq::<char>::empty() =~= input_of(out, i));
        }
        assert(input_of(out + more, tool.index) == tool.args + piece);
        assert forall|k: int| 0 <= k < t.tools.len() implies (#[trigger] t.tools[k]).index
            < t.block_index && input_of(out + more, t.tools[k].index) == t.tools[k].args by {
            assert(t.tools[k].index == s.tools[k].index);
        }
        assert forall|j: int, k: int| 0 <= j < k < t.tools.len() implies (
        #[trigger] t.tools[j]).index < (#[trigger] t.tools[k]).index && t.tools[j].key
            != t.tools[k].key by {
            assert(t.tools[j].index == s.tools[j].index && t.tools[j].key == s.tools[j].key);
            assert(t.tools[k].index == s.tools[k].index && t.tools[k].key == s.tools[k].key);
        }
    }
}

proof fn lemma_tools(
    s: machine::StreamState,
    out: Seq<events::Event>,
    calls: Seq<wire_openai::OpenAIStreamToolCallView>,
)
    requires
        tallied(s, out),
        starts(out + machine::on_tools(s, calls).1) <= i64::MAX,
    ensures
        tallied(machine::on_tools(s, calls).0, out + machine::on_tools(s, calls).1),
    decreases calls.len(),
{
    let (v, more) = machine::on_tools(s, calls);
    if calls.len() == 0 {
        lemma_silent(s, out, v);
    } else {
        let call = calls.last();
        let (t, before) = machine::on_tools(s, calls.drop_last());
        let key = machine::tool_key(t, call);
        let r = machine::StreamState { last_tool_key: Some(key), ..t };
        let (u, begun) = machine::start_tool(r, key, call);
        let added = machine::add_input(u, key, call.function.arguments).1;
        let so_far = out + before;
        assert(out + more =~= so_far + begun + added);
        lemma_both(so_far + begun, added);
        lemma_both(so_far, begun);
        lemma_tools(s, out, calls.drop_last());
        lemma_start_tool(r, so_far, key, call);
        machine::lemma_started_tool_has_block(r, key, call);
        lemma_add_input(u, so_far + begun, key, call.function.arguments);
    }
}

/// The events are none of those that concern input: they start no block and add to none.
spec fn unconcerned(out: Seq<events::Event>) -> bool {
    forall|i: int|
        0 <= i < out.len() ==> !((#[trigger] out[i]) is BlockStart) && !(out[i] is BlockDelta)
}

proof fn lemma_unconcerned(out: Seq<events::Event>)
    requires
        unconcerned(out),
    ensures
        starts(out) == 0,
        forall|i: i64| #[trigger] input_of(out, i) == Seq::<char>::empty(),
    decreases out.len(),
{
    if out.len() > 0 {
        lemma_unconcerned(out.drop_last());
        assert(!(out[out.len() - 1] is BlockStart));
        assert forall|i: i64| #[trigger] input_of(out, i) == Seq::<char>::empty() by {
            assert(!(out[out.len() - 1] is BlockDelta));
            assert(input_of(out.drop_last(), i) == Seq::<char>::empty());
            assert(input_of(out, i) =~= Seq::<char>::empty());
        }
    }
}

/// A step that only stops blocks or ends the message.
spec fn winds_up(s: machine::StreamState, step: machine::Step) -> bool {
    &&& step.0.tools == s.tools
    &&& step.0.block_index == s.block_index
    &&& reach(step.0) <= reach(s)
    &&& unconcerned(step.1)
}

proof fn lemma_winds_up(s: machine::StreamState, out: Seq<events::Event>, step: machine::Step)
    requires
        tallied(s, out),
        winds_up(s, step),
    ensures
        tallied(step.0, out + step.1),
{
    lemma_unconcerned(step.1);
    lemma_plain(s, out, step.0, step.1);
}

proof fn lemma_finish_winds_up(s: machine::StreamState, finish_reason: Seq<char>)
    ensures
        winds_up(s, machine::on_finish(s, finish_reason)),
{
}

proof fn lemma_done_winds_up(s: machine::StreamState)
    ensures
        winds_up(s, machine::on_done(s)),
{
}

proof fn lemma_release_winds_up(s: machine::StreamState)
    ensures
        winds_up(s, machine::release(s)),
{
}

proof fn lemma_content(
    s: machine::StreamState,
    out: Seq<events::Event>,
    id: Seq<char>,
    choice: wire_openai::OpenAIStreamChoiceView,
)
    requires
        tallied(s, out),
        starts(out + machine::add_content(s, id, choice).1) <= i64::MAX,
    ensures
        tallied(
            machine::add_content(s, id, choice).0,
            out + machine::add_content(s, id, choice).1,
        ),
{
    let reasoning = machine::text_of(choice.delta.reasoning_content);
    let text = machine::text_of(choice.delta.content);
    let calls = machine::calls_of(choice);
    let (a, started) = machine::start_message(s, id);
    let (b, thought) = machine::on_reasoning(a, reasoning);
    let (c, said) = machine::on_text(b, text);
    let (d, called) = machine::on_tools(c, calls);
    let o1 = out + started;
    let o2 = o1 + thought;
    let o3 = o2 + said;
    assert(out + machine::add_content(s, id, choice).1 =~= o3 + called);
    lemma_both(o3, called);
    lemma_both(o2, said);
    lemma_both(o1, thought);
    lemma_winds_up(s, out, machine::start_message(s, id));
    lemma_reasoning(a, o1, reasoning);
    lemma_text(b, o2, text);
    lemma_tools(c, o3, calls);
}

proof fn lemma_step(s: machine::StreamState, out: Seq<events::Event>, input: laws::Input)
    requires
        tallied(s, out),
        starts(out + laws::step(s, input).1) <= i64::MAX,
    ensures
        tallied(laws::step(s, input).0, out + laws::step(s, input).1),
{
    match input {
        laws::Input::Chunk { chunk, usage } => {
            let s1 = machine::take_usage(s, usage);
            assert(tallied(s1, out));
            let (s2, told) = if chunk.choices.len() > 0 {
                machine::on_choice(s1, chunk.id, chunk.choices[0])
            } else {
                machine::stay(s1)
            };
            let ended = machine::on_usage(s2, usage);
            assert(out + laws::step(s, input).1 =~= out + told + ended.1);
            lemma_both(out + told, ended.1);
            if chunk.choices.len() > 0 {
                let choice = chunk.choices[0];
                let reason = machine::text_of(choice.finish_reason);
                let (t, added) = machine::add_content(s1, chunk.id, choice);
                let finished = machine::on_finish(t, reason);
                assert(out + told =~= out + added + finished.1);
                lemma_both(out + added, finished.1);
                lemma_content(s1, out, chunk.id, choice);
                lemma_finish_winds_up(t, reason);
                lemma_winds_up(t, out + added, finished);
            } else {
                lemma_silent(s1, out, s2);
            }
            lemma_release_winds_up(s2);
            lemma_winds_up(s2, out + told, ended);
        },
        laws::Input::Done => {
            lemma_done_winds_up(s);
            lemma_winds_up(s, out, machine::on_done(s));
        },
        laws::Input::Flush => {
            lemma_release_winds_up(s);
            lemma_winds_up(s, out, machine::release(s));
        },
    }
}

proof fn lemma_run(inputs: Seq<laws::Input>)
    requires
        starts(laws::run(inputs).1) <= i64::MAX,
    ensures
        tallied(laws::run(inputs).0, laws::run(inputs).1),
    decreases inputs.len(),
{
    if inputs.len() > 0 {
        let (s, before) = laws::run(inputs.drop_last());
        lemma_both(before, laws::step(s, inputs.last()).1);
        lemma_run(inputs.drop_last());
        lemma_step(s, before, inputs.last());
    }
}

/// The pieces of input that a stream has told of a tool call add up to its arguments: whether a
/// gateway sends pieces or sends all again, nothing is lost and nothing is told twice. A tool call has
/// one block, which it shares with no other.
///
/// The stream may start as many blocks as there are indexes.
pub proof fn law_input_adds_up(inputs: Seq<laws::Input>, k: int)
    requires
        starts(laws::run(inputs).1) <= i64::MAX,
        0 <= k < laws::run(inputs).0.tools.len(),
    ensures
        input_of(laws::run(inputs).1, laws::run(inputs).0.tools[k].index) == laws::run(
            inputs,
        ).0.tools[k].args,
        forall|j: int|
            0 <= j < laws::run(inputs).0.tools.len() && j != k ==> (
            #[trigger] laws::run(inputs).0.tools[j]).index != laws::run(inputs).0.tools[k].index
                && laws::run(inputs).0.tools[j].key != laws::run(inputs).0.tools[k].key,
{
    lemma_run(inputs);
}

} // verus!
