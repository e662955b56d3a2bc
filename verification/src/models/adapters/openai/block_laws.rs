//! What holds of the blocks of every stream: which start, which grow and which stop.
use crate::models::adapters::openai::events;
use crate::models::adapters::openai::finish;
use crate::models::adapters::openai::laws;
use crate::models::adapters::openai::machine;
use crate::models::wire_openai;
use vstd::prelude::*;

verus! {

/// How many blocks have started, and which are open.
#[verifier::ext_equal]
pub ghost struct Ledger {
    pub started: int,
    pub open: Map<i64, events::Block>,
}

/// No block has started.
pub open spec fn no_blocks() -> Ledger {
    Ledger { started: 0, open: Map::empty() }
}

/// The piece is one that the block is made of.
pub open spec fn fits(block: events::Block, piece: events::Piece) -> bool {
    match piece {
        events::Piece::Thinking(_) => block is Thinking,
        events::Piece::Text(_) => block is Text,
        events::Piece::Input(_) => block is ToolUse,
    }
}

/// A block may start under the next index, a block that is open may grow by a piece of its kind, and
/// a block that is open may stop.
pub open spec fn allowed(l: Ledger, e: events::Event) -> bool {
    match e {
        events::Event::BlockStart { index, block } => index == l.started,
        events::Event::BlockDelta { index, piece } => l.open.dom().contains(index) && fits(
            l.open[index],
            piece,
        ),
        events::Event::BlockStop { index } => l.open.dom().contains(index),
        _ => true,
    }
}

/// The blocks after an event.
pub open spec fn enter(l: Ledger, e: events::Event) -> Ledger {
    match e {
        events::Event::BlockStart { index, block } => Ledger {
            started: l.started + 1,
            open: l.open.insert(index, block),
        },
        events::Event::BlockStop { index } => Ledger { open: l.open.remove(index), ..l },
        _ => l,
    }
}

/// The blocks after the events.
pub open spec fn ledger(l: Ledger, out: Seq<events::Event>) -> Ledger
    decreases out.len(),
{
    if out.len() == 0 {
        l
    } else {
        enter(ledger(l, out.drop_last()), out.last())
    }
}

/// Every event is allowed where it stands.
pub open spec fn well_told(l: Ledger, out: Seq<events::Event>) -> bool
    decreases out.len(),
{
    out.len() > 0 ==> well_told(l, out.drop_last()) && allowed(
        ledger(l, out.drop_last()),
        out.last(),
    )
}

proof fn lemma_both(l: Ledger, a: Seq<events::Event>, b: Seq<events::Event>)
    ensures
        ledger(l, a + b) == ledger(ledger(l, a), b),
        well_told(l, a + b) == (well_told(l, a) && well_told(ledger(l, a), b)),
        ledger(l, a).started <= ledger(l, a + b).started,
    decreases b.len(),
{
    if b.len() == 0 {
        assert(a + b =~= a);
    } else {
        lemma_both(l, a, b.drop_last());
        assert((a + b).drop_last() =~= a + b.drop_last());
        assert((a + b).last() == b.last());
    }
}

proof fn lemma_grows(l: Ledger, out: Seq<events::Event>)
    ensures
        l.started <= ledger(l, out).started,
    decreases out.len(),
{
    if out.len() > 0 {
        lemma_grows(l, out.drop_last());
    }
}

proof fn lemma_one(l: Ledger, e: events::Event)
    ensures
        ledger(l, seq![e]) == enter(l, e),
        well_told(l, seq![e]) == allowed(l, e),
{
    let out = seq![e];
    assert(out.drop_last() =~= Seq::empty());
    assert(out.last() == e);
    reveal_with_fuel(ledger, 2);
    reveal_with_fuel(well_told, 2);
}

/// A text or thinking block is open.
spec fn busy(s: machine::StreamState) -> bool {
    machine::thinking_open(s) || s.text_started
}

/// The open blocks are those that the state speaks of: the text or thinking block, which has the
/// index that was given out last, and the tool blocks. Once they have been stopped, none is open.
spec fn books(s: machine::StreamState, l: Ledger) -> bool {
    if s.blocks_closed {
        l.open == Map::<i64, events::Block>::empty()
    } else {
        &&& 0 <= s.block_index
        &&& l.started == s.block_index + (if busy(s) {
            1int
        } else {
            0int
        })
        &&& !(machine::thinking_open(s) && s.text_started)
        &&& machine::thinking_open(s) ==> s.thinking_block_index == s.block_index
            && l.open.dom().contains(s.block_index) && l.open[s.block_index] is Thinking
        &&& s.text_started ==> l.open.dom().contains(s.block_index) && l.open[s.block_index] is Text
        &&& s.thinking_stopped ==> s.thinking_started
        &&& forall|k: int|
            0 <= k < s.tools.len() ==> (#[trigger] s.tools[k]).index < s.block_index
                && l.open.dom().contains(s.tools[k].index) && l.open[s.tools[k].index] is ToolUse
        &&& forall|j: int, k: int|
            0 <= j < k < s.tools.len() ==> (#[trigger] s.tools[j]).index < (
            #[trigger] s.tools[k]).index
        &&& forall|i: i64| #[trigger]
            l.open.dom().contains(i) ==> (busy(s) && i == s.block_index) || exists|k: int|
                0 <= k < s.tools.len() && (#[trigger] s.tools[k]).index == i
    }
}

/// The step tells its blocks well.
spec fn kept(l: Ledger, step: machine::Step) -> bool {
    well_told(l, step.1) && books(step.0, ledger(l, step.1))
}

/// The step starts no more blocks than there are indexes.
spec fn within(l: Ledger, step: machine::Step) -> bool {
    ledger(l, step.1).started <= i64::MAX
}

proof fn lemma_stop_thinking(s: machine::StreamState, l: Ledger)
    requires
        books(s, l),
        !s.blocks_closed,
        l.started <= i64::MAX,
    ensures
        kept(l, machine::stop_thinking(s)),
        ledger(l, machine::stop_thinking(s).1).started == l.started,
        !machine::stop_thinking(s).0.blocks_closed,
{
    if machine::thinking_open(s) {
        lemma_one(l, events::Event::BlockStop { index: s.thinking_block_index });
    }
}

proof fn lemma_stop_text(s: machine::StreamState, l: Ledger)
    requires
        books(s, l),
        !s.blocks_closed,
        l.started <= i64::MAX,
    ensures
        kept(l, machine::stop_text(s)),
        ledger(l, machine::stop_text(s).1).started == l.started,
        !machine::stop_text(s).0.blocks_closed,
{
    if s.text_started {
        lemma_one(l, events::Event::BlockStop { index: s.block_index });
    }
}

proof fn lemma_reasoning(s: machine::StreamState, l: Ledger, text: Seq<char>)
    requires
        books(s, l),
        !s.blocks_closed,
        text.len() > 0 ==> !s.thinking_stopped,
        within(l, machine::on_reasoning(s, text)),
    ensures
        kept(l, machine::on_reasoning(s, text)),
        !machine::on_reasoning(s, text).0.blocks_closed,
{
    if text.len() > 0 {
        let (t, out) = machine::start_thinking(s);
        let piece = events::Event::BlockDelta {
            index: t.thinking_block_index,
            piece: events::Piece::Thinking(text),
        };
        lemma_both(l, out, seq![piece]);
        lemma_one(ledger(l, out), piece);
        if !s.thinking_started {
            let (u, stopped) = machine::stop_text(s);
            let start = events::Event::BlockStart {
                index: u.block_index,
                block: events::Block::Thinking,
            };
            lemma_both(l, stopped, seq![start]);
            lemma_grows(l, stopped);
            lemma_stop_text(s, l);
            lemma_one(ledger(l, stopped), start);
        }
    }
}

proof fn lemma_text(s: machine::StreamState, l: Ledger, text: Seq<char>)
    requires
        books(s, l),
        !s.blocks_closed,
        within(l, machine::on_text(s, text)),
    ensures
        kept(l, machine::on_text(s, text)),
        !machine::on_text(s, text).0.blocks_closed,
{
    if text.len() > 0 {
        let (t, stopped) = machine::stop_thinking(s);
        let (u, started) = machine::start_text(t);
        let piece = events::Event::BlockDelta {
            index: u.block_index,
            piece: events::Piece::Text(text),
        };
        lemma_both(l, stopped + started, seq![piece]);
        lemma_both(l, stopped, started);
        lemma_grows(l, stopped);
        lemma_stop_thinking(s, l);
        let m = ledger(l, stopped);
        if !t.text_started {
            lemma_one(
                m,
                events::Event::BlockStart { index: t.block_index, block: events::Block::Text },
            );
        }
        assert(books(u, ledger(m, started)));
        lemma_one(ledger(m, started), piece);
    }
}

proof fn lemma_start_tool(
    s: machine::StreamState,
    l: Ledger,
    key: machine::ToolKeyView,
    call: wire_openai::OpenAIStreamToolCallView,
)
    requires
        books(s, l),
        !s.blocks_closed,
        within(l, machine::start_tool(s, key, call)),
    ensures
        kept(l, machine::start_tool(s, key, call)),
        !machine::start_tool(s, key, call).0.blocks_closed,
{
    if machine::place_of(s.tools, key) >= s.tools.len() {
        let (t, thought) = machine::stop_thinking(s);
        let (u, said) = machine::stop_text(t);
        let start = events::Event::BlockStart {
            index: u.block_index,
            block: events::Block::ToolUse { id: call.id, name: call.function.name },
        };
        lemma_both(l, thought + said, seq![start]);
        lemma_both(l, thought, said);
        lemma_grows(l, thought);
        lemma_stop_thinking(s, l);
        let m = ledger(l, thought);
        lemma_stop_text(t, m);
        let n = ledger(m, said);
        assert(books(u, n));
        assert(!busy(u));
        lemma_one(n, start);
        let v = machine::start_tool(s, key, call).0;
        assert(v.tools.drop_last() =~= u.tools);
        assert(v.tools[u.tools.len() as int].index == u.block_index);
        assert forall|i: i64| #[trigger] enter(n, start).open.dom().contains(i) implies exists|
            k: int,
        |
            0 <= k < v.tools.len() && (#[trigger] v.tools[k]).index == i by {
            if i == u.block_index {
                assert(v.tools[u.tools.len() as int].index == i);
            } else {
                assert(n.open.dom().contains(i));
                let k = choose|k: int| 0 <= k < u.tools.len() && (#[trigger] u.tools[k]).index == i;
                assert(v.tools[k].index == i);
            }
        }
    }
}

proof fn lemma_add_input(
    s: machine::StreamState,
    l: Ledger,
    key: machine::ToolKeyView,
    raw: Seq<char>,
)
    requires
        books(s, l),
        !s.blocks_closed,
        machine::place_of(s.tools, key) < s.tools.len(),
    ensures
        kept(l, machine::add_input(s, key, raw)),
        !machine::add_input(s, key, raw).0.blocks_closed,
        ledger(l, machine::add_input(s, key, raw).1) == l,
{
    if raw.len() > 0 {
        machine::lemma_place_of(s.tools, key);
        let at = machine::place_of(s.tools, key);
        let tool = s.tools[at];
        let piece = machine::unsent(tool.args, raw);
        lemma_one(
            l,
            events::Event::BlockDelta { index: tool.index, piece: events::Piece::Input(piece) },
        );
        let t = machine::add_input(s, key, raw).0;
        assert forall|k: int| 0 <= k < s.tools.len() implies (#[trigger] t.tools[k]).index
            == s.tools[k].index by {}
        assert forall|i: i64| #[trigger] l.open.dom().contains(i) implies (busy(t) && i
            == t.block_index) || exists|k: int|
            0 <= k < t.tools.len() && (#[trigger] t.tools[k]).index == i by {
            if !(busy(s) && i == s.block_index) {
                let k = choose|k: int| 0 <= k < s.tools.len() && (#[trigger] s.tools[k]).index == i;
                assert(t.tools[k].index == i);
            }
        }
    }
}

proof fn lemma_tool(
    s: machine::StreamState,
    l: Ledger,
    call: wire_openai::OpenAIStreamToolCallView,
)
    requires
        books(s, l),
        !s.blocks_closed,
        within(l, machine::on_tool(s, call)),
    ensures
        kept(l, machine::on_tool(s, call)),
        !machine::on_tool(s, call).0.blocks_closed,
{
    let key = machine::tool_key(s, call);
    let r = machine::StreamState { last_tool_key: Some(key), ..s };
    let (t, started) = machine::start_tool(r, key, call);
    let (u, added) = machine::add_input(t, key, call.function.arguments);
    lemma_both(l, started, added);
    lemma_start_tool(r, l, key, call);
    machine::lemma_started_tool_has_block(r, key, call);
    lemma_add_input(t, ledger(l, started), key, call.function.arguments);
}

proof fn lemma_tools(
    s: machine::StreamState,
    l: Ledger,
    calls: Seq<wire_openai::OpenAIStreamToolCallView>,
)
    requires
        books(s, l),
        !s.blocks_closed,
        within(l, machine::on_tools(s, calls)),
    ensures
        kept(l, machine::on_tools(s, calls)),
        !machine::on_tools(s, calls).0.blocks_closed,
    decreases calls.len(),
{
    if calls.len() > 0 {
        let (t, before) = machine::on_tools(s, calls.drop_last());
        let (u, out) = machine::on_tool(t, calls.last());
        lemma_both(l, before, out);
        lemma_tools(s, l, calls.drop_last());
        lemma_tool(t, ledger(l, before), calls.last());
    }
}

/// Tool blocks that are open stop, and nothing else changes.
proof fn lemma_tool_stops(l: Ledger, tools: Seq<machine::ToolBlockView>)
    requires
        forall|k: int| 0 <= k < tools.len() ==> l.open.dom().contains((#[trigger] tools[k]).index),
        forall|j: int, k: int|
            0 <= j < k < tools.len() ==> (#[trigger] tools[j]).index < (#[trigger] tools[k]).index,
    ensures
        well_told(l, machine::tool_stops(tools)),
        ledger(l, machine::tool_stops(tools)).started == l.started,
        forall|i: i64| #[trigger]
            ledger(l, machine::tool_stops(tools)).open.dom().contains(i) <==> (
            l.open.dom().contains(i) && forall|k: int|
                0 <= k < tools.len() ==> (#[trigger] tools[k]).index != i),
    decreases tools.len(),
{
    let stops = machine::tool_stops(tools);
    if tools.len() > 0 {
        let rest = tools.drop_last();
        assert(stops.drop_last() =~= machine::tool_stops(rest));
        lemma_tool_stops(l, rest);
        let m = ledger(l, stops.drop_last());
        let last = tools.len() - 1;
        assert(stops.last() == events::Event::BlockStop { index: tools[last].index });
        assert forall|k: int| 0 <= k < rest.len() implies (#[trigger] rest[k]).index
            != tools[last].index by {
            assert(rest[k] == tools[k]);
            assert(tools[k].index < tools[last].index);
        }
        assert(m.open.dom().contains(tools[last].index));
        assert forall|i: i64| #[trigger] ledger(l, stops).open.dom().contains(i) <==> (
        l.open.dom().contains(i) && forall|k: int|
            0 <= k < tools.len() ==> (#[trigger] tools[k]).index != i) by {
            if ledger(l, stops).open.dom().contains(i) {
                assert(m.open.dom().contains(i));
                assert forall|k: int| 0 <= k < tools.len() implies (#[trigger] tools[k]).index
                    != i by {
                    if k < last {
                        assert(rest[k] == tools[k]);
                    }
                }
            } else if l.open.dom().contains(i) && forall|k: int|
                0 <= k < tools.len() ==> (#[trigger] tools[k]).index != i {
                assert forall|k: int| 0 <= k < rest.len() implies (#[trigger] rest[k]).index
                    != i by {
                    assert(rest[k] == tools[k]);
                }
                assert(tools[last].index != i);
            }
        }
    }
}

proof fn lemma_close(s: machine::StreamState, l: Ledger)
    requires
        books(s, l),
    ensures
        kept(l, machine::close_blocks(s)),
        machine::close_blocks(s).0.blocks_closed,
{
    if !s.blocks_closed {
        let last = machine::last_stop(s);
        let stops = machine::tool_stops(s.tools);
        lemma_both(l, last, stops);
        if busy(s) {
            lemma_one(l, events::Event::BlockStop { index: s.block_index });
        }
        let m = ledger(l, last);
        lemma_tool_stops(m, s.tools);
        let n = ledger(m, stops);
        assert forall|i: i64| !n.open.dom().contains(i) by {
            if n.open.dom().contains(i) {
                assert(m.open.dom().contains(i));
                assert(l.open.dom().contains(i));
                let k = choose|k: int| 0 <= k < s.tools.len() && (#[trigger] s.tools[k]).index == i;
                assert(s.tools[k].index != i);
            }
        }
        assert(n.open =~= Map::empty());
    }
}

proof fn lemma_end(s: machine::StreamState, l: Ledger, stop_reason: Seq<char>)
    requires
        books(s, l),
    ensures
        kept(l, machine::end_message(s, stop_reason)),
{
    if !s.message_closed {
        let delta = events::Event::MessageDelta { stop_reason, usage: s.usage };
        let stop = events::Event::MessageStop;
        assert(seq![delta, stop] =~= seq![delta] + seq![stop]);
        lemma_both(l, seq![delta], seq![stop]);
        lemma_one(l, delta);
        lemma_one(l, stop);
    }
}

proof fn lemma_finish(s: machine::StreamState, l: Ledger, finish_reason: Seq<char>)
    requires
        books(s, l),
    ensures
        kept(l, machine::on_finish(s, finish_reason)),
{
    let (t, stopped) = machine::close_blocks(s);
    lemma_close(s, l);
    let reason = finish::stop_reason(finish_reason);
    lemma_end(t, ledger(l, stopped), reason);
    lemma_both(l, stopped, machine::end_message(t, reason).1);
}

proof fn lemma_release(s: machine::StreamState, l: Ledger)
    requires
        books(s, l),
    ensures
        kept(l, machine::release(s)),
{
    match s.pending_stop_reason {
        Some(reason) => lemma_end(s, l, reason),
        None => {},
    }
}

/// What the events of a choice can be told of: reasoning while the thinking block has not been
/// stopped, and content while the blocks have not been stopped.
pub open spec fn orderly(s: machine::StreamState, input: laws::Input) -> bool {
    match input {
        laws::Input::Chunk { chunk, usage } => chunk.choices.len() > 0 ==> {
            let choice = chunk.choices[0];
            &&& machine::text_of(choice.delta.reasoning_content).len() > 0 ==> !s.thinking_stopped
            &&& s.blocks_closed ==> machine::add_content(s, chunk.id, choice).1.len() == 0
        },
        _ => true,
    }
}

/// Each input is orderly where it comes.
pub open spec fn all_orderly(inputs: Seq<laws::Input>) -> bool
    decreases inputs.len(),
{
    inputs.len() > 0 ==> all_orderly(inputs.drop_last()) && orderly(
        laws::run(inputs.drop_last()).0,
        inputs.last(),
    )
}

proof fn lemma_tools_keep_closed(
    s: machine::StreamState,
    calls: Seq<wire_openai::OpenAIStreamToolCallView>,
)
    ensures
        machine::on_tools(s, calls).0.blocks_closed == s.blocks_closed,
    decreases calls.len(),
{
    if calls.len() > 0 {
        lemma_tools_keep_closed(s, calls.drop_last());
    }
}

proof fn lemma_content(
    s: machine::StreamState,
    l: Ledger,
    id: Seq<char>,
    choice: wire_openai::OpenAIStreamChoiceView,
)
    requires
        books(s, l),
        machine::text_of(choice.delta.reasoning_content).len() > 0 ==> !s.thinking_stopped,
        s.blocks_closed ==> machine::add_content(s, id, choice).1.len() == 0,
        within(l, machine::add_content(s, id, choice)),
    ensures
        kept(l, machine::add_content(s, id, choice)),
{
    let reasoning = machine::text_of(choice.delta.reasoning_content);
    let text = machine::text_of(choice.delta.content);
    let calls = machine::calls_of(choice);
    let (a, started) = machine::start_message(s, id);
    let (b, thought) = machine::on_reasoning(a, reasoning);
    let (c, said) = machine::on_text(b, text);
    let (d, called) = machine::on_tools(c, calls);
    if s.blocks_closed {
        lemma_tools_keep_closed(c, calls);
    } else {
        lemma_both(l, started + thought + said, called);
        lemma_both(l, started + thought, said);
        lemma_both(l, started, thought);
        lemma_one(l, events::Event::MessageStart { id });
        let l1 = ledger(l, started);
        let l2 = ledger(l1, thought);
        let l3 = ledger(l2, said);
        assert(books(a, l1));
        lemma_reasoning(a, l1, reasoning);
        lemma_text(b, l2, text);
        lemma_tools(c, l3, calls);
    }
}

proof fn lemma_step(s: machine::StreamState, l: Ledger, input: laws::Input)
    requires
        books(s, l),
        orderly(s, input),
        within(l, laws::step(s, input)),
    ensures
        kept(l, laws::step(s, input)),
{
    match input {
        laws::Input::Chunk { chunk, usage } => {
            let s1 = machine::take_usage(s, usage);
            let (s2, told) = if chunk.choices.len() > 0 {
                machine::on_choice(s1, chunk.id, chunk.choices[0])
            } else {
                machine::stay(s1)
            };
            let (s3, ended) = machine::on_usage(s2, usage);
            lemma_both(l, told, ended);
            if chunk.choices.len() > 0 {
                let choice = chunk.choices[0];
                let reason = machine::text_of(choice.finish_reason);
                let (t, added) = machine::add_content(s1, chunk.id, choice);
                let (u, finished) = machine::on_finish(t, reason);
                lemma_usage_aside(s, usage, chunk.id, choice);
                lemma_both(l, added, finished);
                lemma_content(s1, l, chunk.id, choice);
                lemma_finish(t, ledger(l, added), reason);
            }
            lemma_release(s2, ledger(l, told));
        },
        laws::Input::Done => {
            if s.pending_stop_reason is Some {
                lemma_release(s, l);
            } else if s.message_started {
                let (t, stopped) = machine::close_blocks(s);
                lemma_close(s, l);
                lemma_end(t, ledger(l, stopped), "end_turn"@);
                lemma_both(l, stopped, machine::end_message(t, "end_turn"@).1);
            }
        },
        laws::Input::Flush => {
            lemma_release(s, l);
        },
    }
}

proof fn lemma_usage_aside(
    s: machine::StreamState,
    usage: Option<events::StreamMessageUsage>,
    id: Seq<char>,
    choice: wire_openai::OpenAIStreamChoiceView,
)
    ensures
        machine::add_content(machine::take_usage(s, usage), id, choice).1 == machine::add_content(
            s,
            id,
            choice,
        ).1,
{
    let r = machine::take_usage(s, usage);
    let s1 = machine::start_message(s, id).0;
    let r1 = machine::start_message(r, id).0;
    let s2 = machine::on_reasoning(s1, machine::text_of(choice.delta.reasoning_content)).0;
    let r2 = machine::on_reasoning(r1, machine::text_of(choice.delta.reasoning_content)).0;
    let s3 = machine::on_text(s2, machine::text_of(choice.delta.content)).0;
    let r3 = machine::on_text(r2, machine::text_of(choice.delta.content)).0;
    assert(r3 == machine::StreamState { usage: r.usage, ..s3 });
    lemma_tools_usage_aside(s3, r.usage, machine::calls_of(choice));
}

proof fn lemma_tools_usage_aside(
    s: machine::StreamState,
    usage: Option<events::StreamMessageUsage>,
    calls: Seq<wire_openai::OpenAIStreamToolCallView>,
)
    ensures
        ({
            let (t, out) = machine::on_tools(s, calls);
            machine::on_tools(machine::StreamState { usage, ..s }, calls) == (
                machine::StreamState { usage, ..t },
                out,
            )
        }),
    decreases calls.len(),
{
    if calls.len() > 0 {
        lemma_tools_usage_aside(s, usage, calls.drop_last());
        let t = machine::on_tools(s, calls.drop_last()).0;
        lemma_tool_usage_aside(t, usage, calls.last());
    }
}

proof fn lemma_tool_usage_aside(
    s: machine::StreamState,
    usage: Option<events::StreamMessageUsage>,
    call: wire_openai::OpenAIStreamToolCallView,
)
    ensures
        ({
            let (t, out) = machine::on_tool(s, call);
            machine::on_tool(machine::StreamState { usage, ..s }, call) == (
                machine::StreamState { usage, ..t },
                out,
            )
        }),
{
}

proof fn lemma_run(inputs: Seq<laws::Input>)
    requires
        all_orderly(inputs),
        ledger(no_blocks(), laws::run(inputs).1).started <= i64::MAX,
    ensures
        kept(no_blocks(), laws::run(inputs)),
    decreases inputs.len(),
{
    if inputs.len() > 0 {
        let (s, before) = laws::run(inputs.drop_last());
        let (t, out) = laws::step(s, inputs.last());
        lemma_both(no_blocks(), before, out);
        lemma_run(inputs.drop_last());
        lemma_step(s, ledger(no_blocks(), before), inputs.last());
    }
}

/// The blocks of an orderly stream start under the indexes 0, 1, 2 and so on, grow only while they
/// are open and only by pieces of their kind, and stop once. When the end of the message has been
/// reached, none is open.
///
/// A stream is orderly where no reasoning comes after its thinking block was stopped, and no content
/// after its blocks were. It may start as many blocks as there are indexes.
pub proof fn law_blocks_pair(inputs: Seq<laws::Input>)
    requires
        all_orderly(inputs),
        ledger(no_blocks(), laws::run(inputs).1).started <= i64::MAX,
    ensures
        well_told(no_blocks(), laws::run(inputs).1),
        laws::run(inputs).0.blocks_closed ==> ledger(no_blocks(), laws::run(inputs).1).open
            == Map::<i64, events::Block>::empty(),
{
    lemma_run(inputs);
}

/// The open blocks are stopped once: first the one of text or thinking, then those of the tool calls,
/// in the order in which they started. Nothing else is told.
pub proof fn law_closing_stops_blocks_once(s: machine::StreamState)
    ensures
        ({
            let (t, stops) = machine::close_blocks(s);
            &&& !s.blocks_closed ==> stops == machine::last_stop(s) + machine::tool_stops(s.tools)
            &&& forall|i: int| 0 <= i < stops.len() ==> (#[trigger] stops[i]) is BlockStop
            &&& machine::close_blocks(t) == machine::stay(t)
        }),
{
}

/// In an orderly stream the stops are those of the blocks that are open, each once, under the index
/// that it was started with.
pub proof fn law_closing_stops_what_is_open(inputs: Seq<laws::Input>)
    requires
        all_orderly(inputs),
        ledger(no_blocks(), laws::run(inputs).1).started <= i64::MAX,
    ensures
        ({
            let l = ledger(no_blocks(), laws::run(inputs).1);
            let stops = machine::close_blocks(laws::run(inputs).0).1;
            &&& well_told(l, stops)
            &&& ledger(l, stops).open == Map::<i64, events::Block>::empty()
        }),
{
    lemma_run(inputs);
    lemma_close(laws::run(inputs).0, ledger(no_blocks(), laws::run(inputs).1));
}

/// A frame has a choice.
pub open spec fn has_choice(input: laws::Input) -> bool {
    match input {
        laws::Input::Chunk { chunk, usage } => chunk.choices.len() > 0,
        _ => false,
    }
}

/// The reasoning of a frame comes before the thinking block is stopped.
pub open spec fn reasons_in_time(s: machine::StreamState, input: laws::Input) -> bool {
    match input {
        laws::Input::Chunk { chunk, usage } => chunk.choices.len() > 0 && machine::text_of(
            chunk.choices[0].delta.reasoning_content,
        ).len() > 0 ==> !s.thinking_stopped,
        _ => true,
    }
}

/// The inputs are frames without a finish reason, and their reasoning comes in time.
pub open spec fn goes_on(inputs: Seq<laws::Input>) -> bool
    decreases inputs.len(),
{
    inputs.len() > 0 ==> goes_on(inputs.drop_last()) && inputs.last() is Chunk && laws::finish_of(
        inputs.last(),
    ).len() == 0 && reasons_in_time(laws::run(inputs.drop_last()).0, inputs.last())
}

/// One of the frames has a choice.
pub open spec fn some_choice(inputs: Seq<laws::Input>) -> bool
    decreases inputs.len(),
{
    inputs.len() > 0 && (some_choice(inputs.drop_last()) || has_choice(inputs.last()))
}

proof fn lemma_content_keeps_open(
    s: machine::StreamState,
    id: Seq<char>,
    choice: wire_openai::OpenAIStreamChoiceView,
)
    ensures
        ({
            let t = machine::add_content(s, id, choice).0;
            &&& t.blocks_closed == s.blocks_closed
            &&& t.message_closed == s.message_closed
            &&& t.pending_stop_reason == s.pending_stop_reason
            &&& t.message_started
        }),
{
    let a = machine::start_message(s, id).0;
    let b = machine::on_reasoning(a, machine::text_of(choice.delta.reasoning_content)).0;
    let c = machine::on_text(b, machine::text_of(choice.delta.content)).0;
    lemma_tools_keep_end(c, machine::calls_of(choice));
}

proof fn lemma_tools_keep_end(
    s: machine::StreamState,
    calls: Seq<wire_openai::OpenAIStreamToolCallView>,
)
    ensures
        ({
            let t = machine::on_tools(s, calls).0;
            &&& t.blocks_closed == s.blocks_closed
            &&& t.message_closed == s.message_closed
            &&& t.pending_stop_reason == s.pending_stop_reason
            &&& t.message_started == s.message_started
        }),
    decreases calls.len(),
{
    if calls.len() > 0 {
        lemma_tools_keep_end(s, calls.drop_last());
    }
}

proof fn lemma_goes_on(inputs: Seq<laws::Input>)
    requires
        goes_on(inputs),
    ensures
        all_orderly(inputs),
        !laws::run(inputs).0.blocks_closed,
        !laws::run(inputs).0.message_closed,
        laws::run(inputs).0.pending_stop_reason is None,
        some_choice(inputs) ==> laws::run(inputs).0.message_started,
    decreases inputs.len(),
{
    if inputs.len() > 0 {
        lemma_goes_on(inputs.drop_last());
        let s = laws::run(inputs.drop_last()).0;
        if let laws::Input::Chunk { chunk, usage } = inputs.last() {
            if chunk.choices.len() > 0 {
                lemma_content_keeps_open(
                    machine::take_usage(s, usage),
                    chunk.id,
                    chunk.choices[0],
                );
            }
        }
    }
}

/// A stream that ends with its last frame tells its blocks well: they start under the indexes 0, 1, 2
/// and so on, each stops once after its start, and in between only it grows.
///
/// The last frame is the only one with a finish reason, or it is the announcement of the end after a
/// frame with a choice. No reasoning comes after the thinking block was stopped. The stream may start
/// as many blocks as there are indexes.
pub proof fn law_finished_stream_stops_all_blocks(inputs: Seq<laws::Input>)
    requires
        inputs.len() > 0,
        goes_on(inputs.drop_last()),
        reasons_in_time(laws::run(inputs.drop_last()).0, inputs.last()),
        laws::finish_of(inputs.last()).len() > 0 || (inputs.last() is Done && some_choice(
            inputs.drop_last(),
        )),
        ledger(no_blocks(), laws::run(inputs).1).started <= i64::MAX,
    ensures
        well_told(no_blocks(), laws::run(inputs).1),
        ledger(no_blocks(), laws::run(inputs).1).open == Map::<i64, events::Block>::empty(),
{
    lemma_goes_on(inputs.drop_last());
    let s = laws::run(inputs.drop_last()).0;
    assert(all_orderly(inputs));
    law_blocks_pair(inputs);
    if let laws::Input::Chunk { chunk, usage } = inputs.last() {
        lemma_content_keeps_open(machine::take_usage(s, usage), chunk.id, chunk.choices[0]);
    }
    assert(laws::run(inputs).0.blocks_closed);
}

} // verus!
