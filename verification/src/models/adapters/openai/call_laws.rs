//! What holds of the pieces of tool calls: which call they belong to, and what is told of them.
use crate::models::adapters::openai::events;
use crate::models::adapters::openai::input_laws;
use crate::models::adapters::openai::laws;
use crate::models::adapters::openai::machine;
use crate::models::wire_openai;
use vstd::prelude::*;

verus! {

/// A piece belongs to the call with its index; without an index, to the one with its id; without
/// either, to the call of the piece before, or to the one with the index 0 where there was none. An id
/// is never taken for an index.
pub proof fn law_pieces_find_their_call(
    s: machine::StreamState,
    call: wire_openai::OpenAIStreamToolCallView,
    id: Seq<char>,
    index: i64,
)
    ensures
        ({
            let key = machine::tool_key(s, call);
            let named = machine::text_of(call.id);
            &&& call.index matches Some(i) ==> key == machine::ToolKeyView::Index(i)
            &&& call.index is None && named.len() > 0 ==> key == machine::ToolKeyView::Id(named)
            &&& call.index is None && named.len() == 0 ==> key == (match s.last_tool_key {
                Some(last) => last,
                None => machine::ToolKeyView::Index(0),
            })
            &&& machine::on_tool(s, call).0.last_tool_key == Some(key)
        }),
        machine::ToolKeyView::Id(id) != machine::ToolKeyView::Index(index),
{
}

/// An input has no piece of a tool call.
pub open spec fn calls_nothing(input: laws::Input) -> bool {
    match input {
        laws::Input::Chunk { chunk, usage } => chunk.choices.len() > 0 ==> machine::calls_of(
            chunk.choices[0],
        ).len() == 0,
        _ => true,
    }
}

/// A piece without index and id belongs to the call of the piece before, also where inputs without
/// tool calls come in between.
pub proof fn law_bare_pieces_go_to_the_last_call(
    s: machine::StreamState,
    call: wire_openai::OpenAIStreamToolCallView,
    between: laws::Input,
    bare: wire_openai::OpenAIStreamToolCallView,
)
    requires
        calls_nothing(between),
        bare.index is None,
        machine::text_of(bare.id).len() == 0,
    ensures
        machine::tool_key(machine::on_tool(s, call).0, bare) == machine::tool_key(s, call),
        laws::step(s, between).0.last_tool_key == s.last_tool_key,
{
}

/// The pieces of input among the events, each with the index of its block.
pub open spec fn inputs_told(out: Seq<events::Event>) -> Seq<(i64, Seq<char>)>
    decreases out.len(),
{
    if out.len() == 0 {
        Seq::empty()
    } else {
        match out.last() {
            events::Event::BlockDelta { index, piece: events::Piece::Input(piece) } => inputs_told(
                out.drop_last(),
            ).push((index, piece)),
            _ => inputs_told(out.drop_last()),
        }
    }
}

proof fn lemma_both(a: Seq<events::Event>, b: Seq<events::Event>)
    ensures
        inputs_told(a + b) == inputs_told(a) + inputs_told(b),
    decreases b.len(),
{
    if b.len() == 0 {
        assert(a + b =~= a);
        assert(inputs_told(a) + Seq::<(i64, Seq<char>)>::empty() =~= inputs_told(a));
    } else {
        lemma_both(a, b.drop_last());
        assert((a + b).drop_last() =~= a + b.drop_last());
        assert(inputs_told(a + b) =~= inputs_told(a) + inputs_told(b));
    }
}

/// None of the events is a piece of input.
spec fn no_input(out: Seq<events::Event>) -> bool {
    forall|i: int|
        0 <= i < out.len() ==> !((#[trigger] out[i]) matches events::Event::BlockDelta {
            piece: events::Piece::Input(_),
            ..
        })
}

proof fn lemma_no_input(out: Seq<events::Event>)
    requires
        no_input(out),
    ensures
        inputs_told(out) == Seq::<(i64, Seq<char>)>::empty(),
    decreases out.len(),
{
    if out.len() > 0 {
        let last = out[out.len() - 1];
        assert(out.last() == last);
        lemma_no_input(out.drop_last());
    }
}

proof fn lemma_before_tools(
    s: machine::StreamState,
    id: Seq<char>,
    choice: wire_openai::OpenAIStreamChoiceView,
)
    ensures
        ({
            let (a, started) = machine::start_message(s, id);
            let (b, thought) = machine::on_reasoning(
                a,
                machine::text_of(choice.delta.reasoning_content),
            );
            let (c, said) = machine::on_text(b, machine::text_of(choice.delta.content));
            &&& c.tools == s.tools
            &&& c.last_tool_key == s.last_tool_key
            &&& no_input(started)
            &&& no_input(thought)
            &&& no_input(said)
        }),
{
}

proof fn lemma_after_tools(
    s: machine::StreamState,
    finish_reason: Seq<char>,
    usage: Option<events::StreamMessageUsage>,
)
    ensures
        no_input(machine::on_finish(s, finish_reason).1),
        no_input(machine::on_usage(s, usage).1),
{
}

proof fn lemma_one_piece(
    s: machine::StreamState,
    call: wire_openai::OpenAIStreamToolCallView,
)
    requires
        machine::place_of(s.tools, machine::tool_key(s, call)) < s.tools.len(),
        call.function.arguments.len() > 0,
    ensures
        ({
            let tool = s.tools[machine::place_of(s.tools, machine::tool_key(s, call))];
            inputs_told(machine::on_tools(s, seq![call]).1) == seq![
                (tool.index, machine::unsent(tool.args, call.function.arguments)),
            ]
        }),
{
    let calls = seq![call];
    assert(calls.drop_last() =~= Seq::empty());
    assert(calls.last() == call);
    reveal_with_fuel(machine::on_tools, 2);
    let key = machine::tool_key(s, call);
    let tool = s.tools[machine::place_of(s.tools, key)];
    let e = events::Event::BlockDelta {
        index: tool.index,
        piece: events::Piece::Input(machine::unsent(tool.args, call.function.arguments)),
    };
    let out = machine::on_tools(s, calls).1;
    assert(out =~= seq![e]);
    assert(out.drop_last() =~= Seq::empty());
    assert(out.last() == e);
    reveal_with_fuel(inputs_told, 2);
    assert(inputs_told(out) =~= seq![
        (tool.index, machine::unsent(tool.args, call.function.arguments)),
    ]);
}

/// A frame with one piece of a tool call that has a block tells one piece of input, and tells it of
/// that block. Where the piece starts with all that has been told of the block, and is longer, what is
/// told is the rest of it; otherwise it is told as it is.
///
/// The stream may start as many blocks as there are indexes.
pub proof fn law_a_piece_goes_to_its_block(
    inputs: Seq<laws::Input>,
    chunk: wire_openai::OpenAIStreamChunkView,
    usage: Option<events::StreamMessageUsage>,
    call: wire_openai::OpenAIStreamToolCallView,
)
    requires
        input_laws::starts(laws::run(inputs).1) <= i64::MAX,
        chunk.choices.len() > 0,
        machine::calls_of(chunk.choices[0]) == seq![call],
        machine::place_of(
            laws::run(inputs).0.tools,
            machine::tool_key(laws::run(inputs).0, call),
        ) < laws::run(inputs).0.tools.len(),
        call.function.arguments.len() > 0,
    ensures
        ({
            let (s, before) = laws::run(inputs);
            let block = s.tools[machine::place_of(s.tools, machine::tool_key(s, call))].index;
            let sent = input_laws::input_of(before, block);
            let raw = call.function.arguments;
            let told = inputs_told(laws::step(s, laws::Input::Chunk { chunk, usage }).1);
            &&& told.len() == 1
            &&& told[0].0 == block
            &&& if sent.len() > 0 && raw.len() > sent.len() && sent.is_prefix_of(raw) {
                sent + told[0].1 == raw
            } else {
                told[0].1 == raw
            }
        }),
{
    let (s, before) = laws::run(inputs);
    let choice = chunk.choices[0];
    let raw = call.function.arguments;
    let at = machine::place_of(s.tools, machine::tool_key(s, call));
    machine::lemma_place_of(s.tools, machine::tool_key(s, call));
    input_laws::law_input_adds_up(inputs, at);
    let s1 = machine::take_usage(s, usage);
    let (a, started) = machine::start_message(s1, chunk.id);
    let (b, thought) = machine::on_reasoning(a, machine::text_of(choice.delta.reasoning_content));
    let (c, said) = machine::on_text(b, machine::text_of(choice.delta.content));
    let (d, called) = machine::on_tools(c, machine::calls_of(choice));
    let (e, finished) = machine::on_finish(d, machine::text_of(choice.finish_reason));
    let ended = machine::on_usage(e, usage).1;
    lemma_before_tools(s1, chunk.id, choice);
    lemma_after_tools(d, machine::text_of(choice.finish_reason), usage);
    lemma_after_tools(e, machine::text_of(choice.finish_reason), usage);
    lemma_one_piece(c, call);
    lemma_no_input(started);
    lemma_no_input(thought);
    lemma_no_input(said);
    lemma_no_input(finished);
    lemma_no_input(ended);
    lemma_both(started, thought);
    lemma_both(started + thought, said);
    lemma_both(started + thought + said, called);
    lemma_both(started + thought + said + called, finished);
    lemma_both(started + thought + said + called + finished, ended);
    let out = laws::step(s, laws::Input::Chunk { chunk, usage }).1;
    assert(out =~= started + thought + said + called + finished + ended);
    assert(inputs_told(out) =~= inputs_told(called));
    let sent = s.tools[at].args;
    if sent.len() > 0 && raw.len() > sent.len() && sent.is_prefix_of(raw) {
        assert(sent + raw.skip(sent.len() as int) =~= raw);
    }
}

} // verus!
