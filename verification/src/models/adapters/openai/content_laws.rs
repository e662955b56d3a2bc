//! What holds of the text and the thinking of every stream: all of it is passed on.
use crate::models::adapters::openai::events;
use crate::models::adapters::openai::laws;
use crate::models::adapters::openai::machine;
use crate::models::wire_openai;
use vstd::prelude::*;

verus! {

/// The text that an event adds.
pub open spec fn text_piece(e: events::Event) -> Seq<char> {
    match e {
        events::Event::BlockDelta { index, piece: events::Piece::Text(text) } => text,
        _ => Seq::empty(),
    }
}

/// The thinking that an event adds.
pub open spec fn thinking_piece(e: events::Event) -> Seq<char> {
    match e {
        events::Event::BlockDelta { index, piece: events::Piece::Thinking(text) } => text,
        _ => Seq::empty(),
    }
}

/// The text that the events add, piece by piece.
pub open spec fn text_told(out: Seq<events::Event>) -> Seq<char>
    decreases out.len(),
{
    if out.len() == 0 {
        Seq::empty()
    } else {
        text_told(out.drop_last()) + text_piece(out.last())
    }
}

/// The thinking that the events add, piece by piece.
pub open spec fn thinking_told(out: Seq<events::Event>) -> Seq<char>
    decreases out.len(),
{
    if out.len() == 0 {
        Seq::empty()
    } else {
        thinking_told(out.drop_last()) + thinking_piece(out.last())
    }
}

/// The text that an input has.
pub open spec fn text_in(input: laws::Input) -> Seq<char> {
    match input {
        laws::Input::Chunk { chunk, usage } => if chunk.choices.len() > 0 {
            machine::text_of(chunk.choices[0].delta.content)
        } else {
            Seq::empty()
        },
        _ => Seq::empty(),
    }
}

/// The thinking that an input has.
pub open spec fn thinking_in(input: laws::Input) -> Seq<char> {
    match input {
        laws::Input::Chunk { chunk, usage } => if chunk.choices.len() > 0 {
            machine::text_of(chunk.choices[0].delta.reasoning_content)
        } else {
            Seq::empty()
        },
        _ => Seq::empty(),
    }
}

/// The text that the inputs have, one after the other.
pub open spec fn text_heard(inputs: Seq<laws::Input>) -> Seq<char>
    decreases inputs.len(),
{
    if inputs.len() == 0 {
        Seq::empty()
    } else {
        text_heard(inputs.drop_last()) + text_in(inputs.last())
    }
}

/// The thinking that the inputs have, one after the other.
pub open spec fn thinking_heard(inputs: Seq<laws::Input>) -> Seq<char>
    decreases inputs.len(),
{
    if inputs.len() == 0 {
        Seq::empty()
    } else {
        thinking_heard(inputs.drop_last()) + thinking_in(inputs.last())
    }
}

proof fn lemma_both(a: Seq<events::Event>, b: Seq<events::Event>)
    ensures
        text_told(a + b) == text_told(a) + text_told(b),
        thinking_told(a + b) == thinking_told(a) + thinking_told(b),
    decreases b.len(),
{
    if b.len() == 0 {
        assert(a + b =~= a);
        assert(text_told(a) + Seq::<char>::empty() =~= text_told(a));
        assert(thinking_told(a) + Seq::<char>::empty() =~= thinking_told(a));
    } else {
        lemma_both(a, b.drop_last());
        assert((a + b).drop_last() =~= a + b.drop_last());
        assert((a + b).last() == b.last());
        assert(text_told(a + b) =~= text_told(a) + text_told(b));
        assert(thinking_told(a + b) =~= thinking_told(a) + thinking_told(b));
    }
}

/// The events add neither text nor thinking.
spec fn silent(out: Seq<events::Event>) -> bool {
    forall|i: int|
        0 <= i < out.len() ==> text_piece(#[trigger] out[i]).len() == 0 && thinking_piece(
            out[i],
        ).len() == 0
}

proof fn lemma_silent(out: Seq<events::Event>)
    requires
        silent(out),
    ensures
        text_told(out) == Seq::<char>::empty(),
        thinking_told(out) == Seq::<char>::empty(),
    decreases out.len(),
{
    if out.len() > 0 {
        assert(silent(out.drop_last()));
        lemma_silent(out.drop_last());
        let last = out[out.len() - 1];
        assert(text_piece(last).len() == 0);
        assert(text_told(out) =~= Seq::<char>::empty());
        assert(thinking_told(out) =~= Seq::<char>::empty());
    }
}

/// The events add this text and this thinking.
spec fn adds(out: Seq<events::Event>, text: Seq<char>, thinking: Seq<char>) -> bool {
    text_told(out) == text && thinking_told(out) == thinking
}

proof fn lemma_reasoning(s: machine::StreamState, text: Seq<char>)
    ensures
        adds(machine::on_reasoning(s, text).1, Seq::empty(), text),
{
    if text.len() > 0 {
        let (t, begun) = machine::start_thinking(s);
        let piece = events::Event::BlockDelta {
            index: t.thinking_block_index,
            piece: events::Piece::Thinking(text),
        };
        assert(silent(begun));
        lemma_silent(begun);
        let out = begun + seq![piece];
        assert(out.drop_last() =~= begun);
        assert(out.last() == piece);
        assert(text_told(out) =~= Seq::<char>::empty());
        assert(thinking_told(out) =~= text);
    } else {
        assert(text =~= Seq::empty());
    }
}

proof fn lemma_text(s: machine::StreamState, text: Seq<char>)
    ensures
        adds(machine::on_text(s, text).1, text, Seq::empty()),
{
    if text.len() > 0 {
        let (t, stopped) = machine::stop_thinking(s);
        let (u, started) = machine::start_text(t);
        let piece = events::Event::BlockDelta {
            index: u.block_index,
            piece: events::Piece::Text(text),
        };
        let begun = stopped + started;
        assert(silent(begun));
        lemma_silent(begun);
        let out = begun + seq![piece];
        assert(out.drop_last() =~= begun);
        assert(out.last() == piece);
        assert(text_told(out) =~= text);
        assert(thinking_told(out) =~= Seq::<char>::empty());
    } else {
        assert(text =~= Seq::empty());
    }
}

proof fn lemma_tools(
    s: machine::StreamState,
    calls: Seq<wire_openai::OpenAIStreamToolCallView>,
)
    ensures
        silent(machine::on_tools(s, calls).1),
    decreases calls.len(),
{
    if calls.len() > 0 {
        lemma_tools(s, calls.drop_last());
        let (t, before) = machine::on_tools(s, calls.drop_last());
        let out = machine::on_tool(t, calls.last()).1;
        assert(silent(out));
        assert forall|i: int| 0 <= i < (before + out).len() implies text_piece(
            #[trigger] (before + out)[i],
        ).len() == 0 && thinking_piece((before + out)[i]).len() == 0 by {
            if i < before.len() {
                assert((before + out)[i] == before[i]);
            } else {
                assert((before + out)[i] == out[i - before.len()]);
            }
        }
    }
}

proof fn lemma_finish(s: machine::StreamState, finish_reason: Seq<char>)
    ensures
        silent(machine::on_finish(s, finish_reason).1),
{
}

proof fn lemma_done(s: machine::StreamState)
    ensures
        silent(machine::on_done(s).1),
{
}

proof fn lemma_release(s: machine::StreamState)
    ensures
        silent(machine::release(s).1),
{
}

proof fn lemma_content(
    s: machine::StreamState,
    id: Seq<char>,
    choice: wire_openai::OpenAIStreamChoiceView,
)
    ensures
        adds(
            machine::add_content(s, id, choice).1,
            machine::text_of(choice.delta.content),
            machine::text_of(choice.delta.reasoning_content),
        ),
{
    let reasoning = machine::text_of(choice.delta.reasoning_content);
    let text = machine::text_of(choice.delta.content);
    let calls = machine::calls_of(choice);
    let (a, started) = machine::start_message(s, id);
    let (b, thought) = machine::on_reasoning(a, reasoning);
    let (c, said) = machine::on_text(b, text);
    let called = machine::on_tools(c, calls).1;
    lemma_silent(started);
    lemma_reasoning(a, reasoning);
    lemma_text(b, text);
    lemma_tools(c, calls);
    lemma_silent(called);
    lemma_both(started, thought);
    lemma_both(started + thought, said);
    lemma_both(started + thought + said, called);
    let out = machine::add_content(s, id, choice).1;
    assert(text_told(out) =~= text);
    assert(thinking_told(out) =~= reasoning);
}

proof fn lemma_step(s: machine::StreamState, input: laws::Input)
    ensures
        adds(laws::step(s, input).1, text_in(input), thinking_in(input)),
{
    match input {
        laws::Input::Chunk { chunk, usage } => {
            let s1 = machine::take_usage(s, usage);
            let (s2, told) = if chunk.choices.len() > 0 {
                machine::on_choice(s1, chunk.id, chunk.choices[0])
            } else {
                machine::stay(s1)
            };
            let ended = machine::on_usage(s2, usage).1;
            lemma_release(s2);
            lemma_silent(ended);
            lemma_both(told, ended);
            if chunk.choices.len() > 0 {
                let choice = chunk.choices[0];
                let reason = machine::text_of(choice.finish_reason);
                let (t, added) = machine::add_content(s1, chunk.id, choice);
                let finished = machine::on_finish(t, reason).1;
                lemma_content(s1, chunk.id, choice);
                lemma_finish(t, reason);
                lemma_silent(finished);
                lemma_both(added, finished);
            }
            let out = laws::step(s, input).1;
            assert(text_told(out) =~= text_in(input));
            assert(thinking_told(out) =~= thinking_in(input));
        },
        laws::Input::Done => {
            lemma_done(s);
            lemma_silent(machine::on_done(s).1);
        },
        laws::Input::Flush => {
            lemma_release(s);
            lemma_silent(machine::release(s).1);
        },
    }
}

/// An input adds its own text and its own thinking, and no other, whatever came before.
pub proof fn law_step_adds_its_content(s: machine::StreamState, input: laws::Input)
    ensures
        text_told(laws::step(s, input).1) == text_in(input),
        thinking_told(laws::step(s, input).1) == thinking_in(input),
{
    lemma_step(s, input);
}

/// All text and all thinking of a stream is told, in order, nothing of it twice.
pub proof fn law_content_is_passed_on(inputs: Seq<laws::Input>)
    ensures
        text_told(laws::run(inputs).1) == text_heard(inputs),
        thinking_told(laws::run(inputs).1) == thinking_heard(inputs),
    decreases inputs.len(),
{
    if inputs.len() > 0 {
        let (s, before) = laws::run(inputs.drop_last());
        law_content_is_passed_on(inputs.drop_last());
        lemma_step(s, inputs.last());
        lemma_both(before, laws::step(s, inputs.last()).1);
    }
}

} // verus!
