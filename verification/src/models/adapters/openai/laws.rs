//! What holds of every stream.
use crate::models::adapters::openai::events;
use crate::models::adapters::openai::events::StreamMessageUsage;
use crate::models::adapters::openai::finish;
use crate::models::adapters::openai::machine;
use crate::models::wire_openai;
use crate::shared::decode::FromJson;
use crate::shared::json;
use vstd::prelude::*;

verus! {

/// What a converter is handed.
pub ghost enum Input {
    /// A frame, and the usage it carries.
    Chunk { chunk: wire_openai::OpenAIStreamChunkView, usage: Option<StreamMessageUsage> },
    /// The line that announces the end.
    Done,
    /// The call that flushes.
    Flush,
}

/// What the converter makes of an input.
pub open spec fn step(s: machine::StreamState, input: Input) -> machine::Step {
    match input {
        Input::Chunk { chunk, usage } => machine::on_chunk(s, chunk, usage),
        Input::Done => machine::on_done(s),
        Input::Flush => machine::release(s),
    }
}

/// What the converter makes of one input after the other.
pub open spec fn run(inputs: Seq<Input>) -> machine::Step
    decreases inputs.len(),
{
    if inputs.len() == 0 {
        machine::stay(machine::fresh())
    } else {
        let (s, before) = run(inputs.drop_last());
        let (t, out) = step(s, inputs.last());
        (t, before + out)
    }
}

/// The end of a message is part of what has happened.
spec fn sound(s: machine::StreamState) -> bool {
    &&& s.pending_stop_reason is Some ==> s.blocks_closed && !s.message_closed
    &&& s.message_closed ==> s.blocks_closed
    &&& s.blocks_closed ==> s.message_started
}

/// One of the two events at the end of a message.
pub open spec fn is_end(e: events::Event) -> bool {
    e is MessageDelta || e is MessageStop
}

/// The message does not end.
pub open spec fn no_end(out: Seq<events::Event>) -> bool {
    forall|i: int| 0 <= i < out.len() ==> !is_end(#[trigger] out[i])
}

/// The message ends at `p`, with its delta and its stop, and nowhere else.
pub open spec fn ends_at(out: Seq<events::Event>, p: int) -> bool {
    &&& 0 <= p < out.len() - 1
    &&& out[p] is MessageDelta
    &&& out[p + 1] is MessageStop
    &&& forall|i: int| 0 <= i < out.len() && i != p && i != p + 1 ==> !is_end(#[trigger] out[i])
}

/// The message ends once.
pub open spec fn ends_once(out: Seq<events::Event>) -> bool {
    exists|p: int| ends_at(out, p)
}

/// The message starts with the first event, and nowhere else.
pub open spec fn starts_once(out: Seq<events::Event>) -> bool {
    &&& out.len() > 0
    &&& out[0] is MessageStart
    &&& forall|i: int| 0 < i < out.len() ==> !((#[trigger] out[i]) is MessageStart)
}

/// The message does not start.
pub open spec fn no_start(out: Seq<events::Event>) -> bool {
    forall|i: int| 0 <= i < out.len() ==> !((#[trigger] out[i]) is MessageStart)
}

/// What a step has to keep for a message to start and end once.
spec fn framed(s: machine::StreamState, t: machine::StreamState, out: Seq<events::Event>) -> bool {
    &&& sound(s) ==> sound(t)
    &&& s.message_started ==> t.message_started
    &&& s.message_closed ==> t.message_closed
    &&& if s.message_started {
        no_start(out)
    } else if t.message_started {
        starts_once(out)
    } else {
        out.len() == 0
    }
    &&& if t.message_closed && !s.message_closed {
        ends_once(out)
    } else {
        no_end(out)
    }
}

proof fn lemma_framed_both(
    s: machine::StreamState,
    t: machine::StreamState,
    u: machine::StreamState,
    a: Seq<events::Event>,
    b: Seq<events::Event>,
)
    requires
        framed(s, t, a),
        framed(t, u, b),
    ensures
        framed(s, u, a + b),
{
    let out = a + b;
    assert forall|i: int| 0 <= i < out.len() implies out[i] == (if i < a.len() {
        a[i]
    } else {
        b[i - a.len()]
    }) by {}
    if t.message_closed && !s.message_closed {
        let p = choose|p: int| ends_at(a, p);
        assert(ends_at(out, p));
    } else if u.message_closed && !t.message_closed {
        let p = choose|p: int| ends_at(b, p);
        assert(out[a.len() + p] == b[p]);
        assert(out[a.len() + p + 1] == b[p + 1]);
        assert(ends_at(out, a.len() + p));
    } else {
        assert(no_end(out));
    }
    if s.message_started {
        assert(no_start(out));
    } else if t.message_started {
        assert(starts_once(out));
    } else {
        assert(out =~= b);
    }
}

proof fn lemma_start_framed(s: machine::StreamState, id: Seq<char>)
    ensures
        framed(s, machine::start_message(s, id).0, machine::start_message(s, id).1),
        machine::start_message(s, id).0.message_started,
{
}

proof fn lemma_reasoning_framed(s: machine::StreamState, text: Seq<char>)
    requires
        s.message_started,
    ensures
        framed(s, machine::on_reasoning(s, text).0, machine::on_reasoning(s, text).1),
{
}

proof fn lemma_text_framed(s: machine::StreamState, text: Seq<char>)
    requires
        s.message_started,
    ensures
        framed(s, machine::on_text(s, text).0, machine::on_text(s, text).1),
{
}

proof fn lemma_tool_framed(
    s: machine::StreamState,
    call: wire_openai::OpenAIStreamToolCallView,
)
    requires
        s.message_started,
    ensures
        framed(s, machine::on_tool(s, call).0, machine::on_tool(s, call).1),
{
}

proof fn lemma_tools_framed(
    s: machine::StreamState,
    calls: Seq<wire_openai::OpenAIStreamToolCallView>,
)
    requires
        s.message_started,
    ensures
        framed(s, machine::on_tools(s, calls).0, machine::on_tools(s, calls).1),
    decreases calls.len(),
{
    if calls.len() > 0 {
        lemma_tools_framed(s, calls.drop_last());
        let (t, before) = machine::on_tools(s, calls.drop_last());
        lemma_tool_framed(t, calls.last());
        let (u, out) = machine::on_tool(t, calls.last());
        lemma_framed_both(s, t, u, before, out);
    }
}

proof fn lemma_close_framed(s: machine::StreamState)
    requires
        s.message_started,
    ensures
        framed(s, machine::close_blocks(s).0, machine::close_blocks(s).1),
        machine::close_blocks(s).0.blocks_closed,
{
}

proof fn lemma_end_framed(s: machine::StreamState, stop_reason: Seq<char>)
    requires
        s.message_started,
        s.blocks_closed,
    ensures
        framed(s, machine::end_message(s, stop_reason).0, machine::end_message(s, stop_reason).1),
{
    let (t, out) = machine::end_message(s, stop_reason);
    if !s.message_closed {
        assert(ends_at(out, 0));
    }
}

proof fn lemma_finish_framed(s: machine::StreamState, finish_reason: Seq<char>)
    requires
        s.message_started,
    ensures
        framed(s, machine::on_finish(s, finish_reason).0, machine::on_finish(s, finish_reason).1),
{
    let (t, stopped) = machine::close_blocks(s);
    lemma_close_framed(s);
    let reason = finish::stop_reason(finish_reason);
    lemma_end_framed(t, reason);
    let (u, ended) = machine::end_message(t, reason);
    lemma_framed_both(s, t, u, stopped, ended);
}

proof fn lemma_release_framed(s: machine::StreamState)
    requires
        sound(s),
    ensures
        framed(s, machine::release(s).0, machine::release(s).1),
{
    match s.pending_stop_reason {
        Some(reason) => {
            lemma_end_framed(s, reason);
        },
        None => {},
    }
}

proof fn lemma_step_framed(s: machine::StreamState, input: Input)
    requires
        sound(s),
    ensures
        framed(s, step(s, input).0, step(s, input).1),
{
    match input {
        Input::Chunk { chunk, usage } => {
            let s1 = machine::take_usage(s, usage);
            let (s2, told) = if chunk.choices.len() > 0 {
                machine::on_choice(s1, chunk.id, chunk.choices[0])
            } else {
                machine::stay(s1)
            };
            if chunk.choices.len() > 0 {
                let choice = chunk.choices[0];
                let (a, started) = machine::start_message(s1, chunk.id);
                lemma_start_framed(s1, chunk.id);
                let reasoning = machine::text_of(choice.delta.reasoning_content);
                let (b, thought) = machine::on_reasoning(a, reasoning);
                lemma_reasoning_framed(a, reasoning);
                let text = machine::text_of(choice.delta.content);
                let (c, said) = machine::on_text(b, text);
                lemma_text_framed(b, text);
                let calls = machine::calls_of(choice);
                let (d, called) = machine::on_tools(c, calls);
                lemma_tools_framed(c, calls);
                let reason = machine::text_of(choice.finish_reason);
                let (e, finished) = machine::on_finish(d, reason);
                lemma_finish_framed(d, reason);
                lemma_framed_both(s1, a, b, started, thought);
                lemma_framed_both(s1, b, c, started + thought, said);
                lemma_framed_both(s1, c, d, started + thought + said, called);
                lemma_framed_both(s1, d, e, started + thought + said + called, finished);
            }
            assert(framed(s1, s2, told));
            lemma_release_framed(s2);
            let (s3, ended) = machine::on_usage(s2, usage);
            assert(framed(s2, s3, ended));
            lemma_framed_both(s1, s2, s3, told, ended);
        },
        Input::Done => {
            if s.pending_stop_reason is Some {
                lemma_release_framed(s);
            } else if s.message_started {
                let (t, stopped) = machine::close_blocks(s);
                lemma_close_framed(s);
                let (u, ended) = machine::end_message(t, "end_turn"@);
                lemma_end_framed(t, "end_turn"@);
                lemma_framed_both(s, t, u, stopped, ended);
            }
        },
        Input::Flush => {
            lemma_release_framed(s);
        },
    }
}

proof fn lemma_run_framed(inputs: Seq<Input>)
    ensures
        sound(run(inputs).0),
        framed(machine::fresh(), run(inputs).0, run(inputs).1),
    decreases inputs.len(),
{
    if inputs.len() > 0 {
        lemma_run_framed(inputs.drop_last());
        let (s, before) = run(inputs.drop_last());
        lemma_step_framed(s, inputs.last());
        let (t, out) = step(s, inputs.last());
        lemma_framed_both(machine::fresh(), s, t, before, out);
    }
}

/// A stream starts its message with the first event that it tells, and only there.
pub proof fn law_message_starts_once(inputs: Seq<Input>)
    ensures
        run(inputs).1.len() > 0 ==> starts_once(run(inputs).1),
{
    lemma_run_framed(inputs);
}

/// A stream ends its message at most once: one delta, and directly after it one stop. It has told
/// the end just when the state says so, and by then it has stopped its blocks.
pub proof fn law_message_ends_at_most_once(inputs: Seq<Input>)
    ensures
        run(inputs).0.message_closed ==> ends_once(run(inputs).1) && run(inputs).0.blocks_closed,
        !run(inputs).0.message_closed ==> no_end(run(inputs).1),
{
    lemma_run_framed(inputs);
}

/// The usage that came last, when an input comes after `usage`.
pub open spec fn usage_after(usage: Option<StreamMessageUsage>, input: Input) -> Option<StreamMessageUsage> {
    match input {
        Input::Chunk { chunk, usage: Some(usage) } => Some(usage),
        _ => usage,
    }
}

/// The usage that came last.
pub open spec fn last_usage(inputs: Seq<Input>) -> Option<StreamMessageUsage>
    decreases inputs.len(),
{
    if inputs.len() == 0 {
        None
    } else {
        usage_after(last_usage(inputs.drop_last()), inputs.last())
    }
}

/// The finish reason that an input has.
pub open spec fn finish_of(input: Input) -> Seq<char> {
    match input {
        Input::Chunk { chunk, usage } => if chunk.choices.len() > 0 {
            machine::text_of(chunk.choices[0].finish_reason)
        } else {
            Seq::empty()
        },
        _ => Seq::empty(),
    }
}

/// The first finish reason, when `finish_reason` comes after `first`.
pub open spec fn first_of(first: Option<Seq<char>>, finish_reason: Seq<char>) -> Option<Seq<char>> {
    match first {
        Some(reason) => Some(reason),
        None => if finish_reason.len() > 0 {
            Some(finish_reason)
        } else {
            None
        },
    }
}

/// The stop reason of a stream with this first finish reason. Without one it is that of an answer
/// that ended by itself.
pub open spec fn stop_reason_for(first: Option<Seq<char>>) -> Seq<char> {
    match first {
        Some(reason) => finish::stop_reason(reason),
        None => "end_turn"@,
    }
}

/// The finish reason that came first.
pub open spec fn first_finish(inputs: Seq<Input>) -> Option<Seq<char>>
    decreases inputs.len(),
{
    if inputs.len() == 0 {
        None
    } else {
        first_of(first_finish(inputs.drop_last()), finish_of(inputs.last()))
    }
}

/// Every end among the events has this stop reason and this usage.
pub open spec fn ends_with(
    out: Seq<events::Event>,
    stop_reason: Seq<char>,
    usage: Option<StreamMessageUsage>,
) -> bool {
    forall|i: int|
        0 <= i < out.len() && (#[trigger] out[i]) is MessageDelta ==> out[i]
            == (events::Event::MessageDelta { stop_reason, usage })
}

/// The end of a message and its usage are untouched, and the message does not end.
spec fn aside(s: machine::StreamState, t: machine::StreamState, out: Seq<events::Event>) -> bool {
    &&& no_end(out)
    &&& t.usage == s.usage
    &&& t.message_closed == s.message_closed
    &&& t.pending_stop_reason == s.pending_stop_reason
}

proof fn lemma_aside_both(
    s: machine::StreamState,
    t: machine::StreamState,
    u: machine::StreamState,
    a: Seq<events::Event>,
    b: Seq<events::Event>,
)
    requires
        aside(s, t, a),
        aside(t, u, b),
    ensures
        aside(s, u, a + b),
{
}

proof fn lemma_reasoning_aside(s: machine::StreamState, text: Seq<char>)
    ensures
        aside(s, machine::on_reasoning(s, text).0, machine::on_reasoning(s, text).1),
{
}

proof fn lemma_text_aside(s: machine::StreamState, text: Seq<char>)
    ensures
        aside(s, machine::on_text(s, text).0, machine::on_text(s, text).1),
{
}

proof fn lemma_tools_aside(
    s: machine::StreamState,
    calls: Seq<wire_openai::OpenAIStreamToolCallView>,
)
    ensures
        aside(s, machine::on_tools(s, calls).0, machine::on_tools(s, calls).1),
    decreases calls.len(),
{
    if calls.len() > 0 {
        lemma_tools_aside(s, calls.drop_last());
    }
}

proof fn lemma_content_aside(
    s: machine::StreamState,
    id: Seq<char>,
    choice: wire_openai::OpenAIStreamChoiceView,
)
    ensures
        aside(
            s,
            machine::add_content(s, id, choice).0,
            machine::add_content(s, id, choice).1,
        ),
{
    let reasoning = machine::text_of(choice.delta.reasoning_content);
    let text = machine::text_of(choice.delta.content);
    let calls = machine::calls_of(choice);
    let (a, started) = machine::start_message(s, id);
    let (b, thought) = machine::on_reasoning(a, reasoning);
    let (c, said) = machine::on_text(b, text);
    let (d, called) = machine::on_tools(c, calls);
    lemma_reasoning_aside(a, reasoning);
    lemma_text_aside(b, text);
    lemma_tools_aside(c, calls);
    lemma_aside_both(s, a, b, started, thought);
    lemma_aside_both(s, b, c, started + thought, said);
    lemma_aside_both(s, c, d, started + thought + said, called);
}

/// The stop reason that waits is the one that the stream has.
spec fn waits(s: machine::StreamState, first: Option<Seq<char>>) -> bool {
    !s.message_closed ==> s.pending_stop_reason == (match first {
        Some(reason) => Some(finish::stop_reason(reason)),
        None => None::<Seq<char>>,
    })
}

proof fn lemma_ends_with_both(
    a: Seq<events::Event>,
    b: Seq<events::Event>,
    stop_reason: Seq<char>,
    usage: Option<StreamMessageUsage>,
)
    requires
        ends_with(a, stop_reason, usage),
        ends_with(b, stop_reason, usage),
    ensures
        ends_with(a + b, stop_reason, usage),
{
    let out = a + b;
    assert forall|i: int| 0 <= i < out.len() && (#[trigger] out[i]) is MessageDelta implies out[i]
        == (events::Event::MessageDelta { stop_reason, usage }) by {
        if i < a.len() {
            assert(out[i] == a[i]);
        } else {
            assert(out[i] == b[i - a.len()]);
        }
    }
}

proof fn lemma_finish_ends(s: machine::StreamState, finish_reason: Seq<char>, first: Option<Seq<char>>)
    requires
        waits(s, first),
    ensures
        machine::on_finish(s, finish_reason).0.usage == s.usage,
        waits(machine::on_finish(s, finish_reason).0, first_of(first, finish_reason)),
        ends_with(
            machine::on_finish(s, finish_reason).1,
            stop_reason_for(first_of(first, finish_reason)),
            s.usage,
        ),
{
}

proof fn lemma_release_ends(s: machine::StreamState, first: Option<Seq<char>>)
    requires
        waits(s, first),
    ensures
        machine::release(s).0.usage == s.usage,
        waits(machine::release(s).0, first),
        ends_with(machine::release(s).1, stop_reason_for(first), s.usage),
{
}

proof fn lemma_step_ends(s: machine::StreamState, input: Input, first: Option<Seq<char>>)
    requires
        waits(s, first),
    ensures
        step(s, input).0.usage == usage_after(s.usage, input),
        waits(step(s, input).0, first_of(first, finish_of(input))),
        ends_with(
            step(s, input).1,
            stop_reason_for(first_of(first, finish_of(input))),
            usage_after(s.usage, input),
        ),
{
    match input {
        Input::Chunk { chunk, usage } => {
            let s1 = machine::take_usage(s, usage);
            let next = first_of(first, finish_of(input));
            let reason = stop_reason_for(next);
            let (s2, told) = if chunk.choices.len() > 0 {
                machine::on_choice(s1, chunk.id, chunk.choices[0])
            } else {
                machine::stay(s1)
            };
            if chunk.choices.len() > 0 {
                let choice = chunk.choices[0];
                lemma_content_aside(s1, chunk.id, choice);
                let (s4, added) = machine::add_content(s1, chunk.id, choice);
                lemma_finish_ends(s4, finish_of(input), first);
                let finished = machine::on_finish(s4, finish_of(input)).1;
                lemma_ends_with_both(added, finished, reason, s1.usage);
                assert(told == added + finished);
            }
            assert(ends_with(told, reason, s1.usage));
            lemma_release_ends(s2, next);
            lemma_ends_with_both(told, machine::on_usage(s2, usage).1, reason, s1.usage);
        },
        Input::Done => {
            assert(finish_of(input).len() == 0);
            lemma_release_ends(s, first);
        },
        Input::Flush => {
            lemma_release_ends(s, first);
        },
    }
}

proof fn lemma_run_ends(inputs: Seq<Input>)
    ensures
        run(inputs).0.usage == last_usage(inputs),
        waits(run(inputs).0, first_finish(inputs)),
    decreases inputs.len(),
{
    if inputs.len() > 0 {
        lemma_run_ends(inputs.drop_last());
        lemma_step_ends(
            run(inputs.drop_last()).0,
            inputs.last(),
            first_finish(inputs.drop_last()),
        );
    }
}

/// While a message has not ended, its usage is the one that came last, and the stop reason that waits is
/// that of the first finish reason; it has started where it has stopped its blocks.
pub proof fn law_state_knows_reason_and_usage(inputs: Seq<Input>)
    ensures
        ({
            let s = run(inputs).0;
            &&& s.usage == last_usage(inputs)
            &&& !s.message_closed && first_finish(inputs) is Some ==> s.pending_stop_reason == Some(
                finish::stop_reason(first_finish(inputs)->Some_0),
            )
            &&& !s.message_closed && first_finish(inputs) is None ==> s.pending_stop_reason is None
            &&& s.message_closed || s.pending_stop_reason is Some ==> s.message_started
        }),
{
    lemma_run_ends(inputs);
    lemma_run_framed(inputs);
}

/// The content of a frame changes nothing of how the message ends.
pub proof fn law_content_leaves_the_end_alone(
    s: machine::StreamState,
    id: Seq<char>,
    choice: wire_openai::OpenAIStreamChoiceView,
)
    ensures
        ({
            let (t, out) = machine::add_content(s, id, choice);
            &&& no_end(out)
            &&& t.usage == s.usage
            &&& t.message_closed == s.message_closed
            &&& t.pending_stop_reason == s.pending_stop_reason
        }),
{
    lemma_content_aside(s, id, choice);
}

/// The end of a message carries the usage that came last, or none where none came, and the stop
/// reason of the first finish reason, or that of an answer that ended by itself where none came.
pub proof fn law_end_carries_first_finish_and_last_usage(inputs: Seq<Input>, input: Input)
    ensures
        ends_with(
            step(run(inputs).0, input).1,
            stop_reason_for(first_finish(inputs.push(input))),
            last_usage(inputs.push(input)),
        ),
{
    let all = inputs.push(input);
    assert(all.drop_last() =~= inputs);
    lemma_run_ends(inputs);
    lemma_step_ends(run(inputs).0, input, first_finish(inputs));
}

/// Flushing tells nothing of a stream that has had no finish reason: one that was cut off is not
/// told as one that ended.
pub proof fn law_flush_fakes_no_end(inputs: Seq<Input>)
    requires
        first_finish(inputs) is None,
    ensures
        machine::release(run(inputs).0).1 == Seq::<events::Event>::empty(),
{
    lemma_run_ends(inputs);
    lemma_run_framed(inputs);
}

/// Flushing tells nothing but an end that has waited: a delta and a stop.
pub proof fn law_flush_tells_only_the_end(s: machine::StreamState)
    ensures
        machine::release(s).1.len() == 0 || (machine::release(s).1.len() == 2 && ends_at(
            machine::release(s).1,
            0,
        )),
{
}

/// Flushing again tells nothing.
pub proof fn law_flush_tells_once(s: machine::StreamState)
    ensures
        machine::release(machine::release(s).0).1 == Seq::<events::Event>::empty(),
{
}

/// An input that adds no content: whatever it is, it is no frame with text, thinking or a tool call
/// to tell of.
pub open spec fn adds_no_content(s: machine::StreamState, input: Input) -> bool {
    match input {
        Input::Chunk { chunk, usage } => chunk.choices.len() > 0 ==> machine::add_content(
            machine::take_usage(s, usage),
            chunk.id,
            chunk.choices[0],
        ).1.len() == 0,
        _ => true,
    }
}

/// Once a stream has ended its message, nothing but content tells anything more: no announcement of
/// the end, no flush, no usage, no finish reason.
pub proof fn law_closed_stream_is_silent(inputs: Seq<Input>, input: Input)
    requires
        run(inputs).0.message_closed,
        adds_no_content(run(inputs).0, input),
    ensures
        step(run(inputs).0, input).1 == Seq::<events::Event>::empty(),
        step(run(inputs).0, input).0.message_closed,
{
    lemma_run_framed(inputs);
    let s = run(inputs).0;
    lemma_step_framed(s, input);
    match input {
        Input::Chunk { chunk, usage } => {
            if chunk.choices.len() > 0 {
                lemma_content_aside(machine::take_usage(s, usage), chunk.id, chunk.choices[0]);
            }
        },
        _ => {},
    }
}

/// A gateway that sends all arguments again is told as one that sends what is new.
pub proof fn law_resent_arguments_are_sent_once(sent: Seq<char>, more: Seq<char>)
    requires
        sent.len() > 0,
        more.len() > 0,
    ensures
        machine::unsent(sent, sent + more) == more,
{
    assert((sent + more).skip(sent.len() as int) =~= more);
}

/// A piece that does not start with what was sent is told as it is.
pub proof fn law_true_pieces_are_sent_whole(sent: Seq<char>, piece: Seq<char>)
    requires
        !sent.is_prefix_of(piece),
    ensures
        machine::unsent(sent, piece) == piece,
{
}

/// A call of the converter.
pub ghost enum Call {
    /// A line is converted.
    Line(Seq<char>),
    /// The converter is flushed.
    Flush,
}

/// The input that a line is, where it can be read.
pub open spec fn input_in(data: Seq<char>) -> Option<Input> {
    if data == "[DONE]"@ {
        Some(Input::Done)
    } else {
        match json::json_parse(data) {
            Ok(frame) => match wire_openai::OpenAIStreamChunk::from_json(
                machine::without_usage(frame),
            ) {
                Some(chunk) => Some(
                    Input::Chunk { chunk, usage: events::usage_of(machine::raw_usage(frame)) },
                ),
                None => None,
            },
            Err(_) => None,
        }
    }
}

/// What the converter makes of a call. A line that cannot be read changes nothing and tells nothing.
pub open spec fn answer(s: machine::StreamState, call: Call) -> machine::Step {
    match call {
        Call::Line(data) => match machine::on_line(s, data) {
            Some((step, _)) => step,
            None => machine::stay(s),
        },
        Call::Flush => machine::release(s),
    }
}

/// What a new converter makes of one call after the other.
pub open spec fn answers(calls: Seq<Call>) -> machine::Step
    decreases calls.len(),
{
    if calls.len() == 0 {
        machine::stay(machine::fresh())
    } else {
        let (s, before) = answers(calls.drop_last());
        let (t, out) = answer(s, calls.last());
        (t, before + out)
    }
}

/// The inputs that the calls hand over: those of the lines that can be read, and the flushes.
pub open spec fn inputs_of(calls: Seq<Call>) -> Seq<Input>
    decreases calls.len(),
{
    if calls.len() == 0 {
        Seq::empty()
    } else {
        let before = inputs_of(calls.drop_last());
        match calls.last() {
            Call::Line(data) => match input_in(data) {
                Some(input) => before.push(input),
                None => before,
            },
            Call::Flush => before.push(Input::Flush),
        }
    }
}

/// Whatever calls a converter gets, in whatever order, what it tells is what a run of their inputs
/// tells: all that holds of every run holds of every use of a converter.
pub proof fn law_calls_are_a_run(calls: Seq<Call>)
    ensures
        answers(calls) == run(inputs_of(calls)),
    decreases calls.len(),
{
    if calls.len() > 0 {
        law_calls_are_a_run(calls.drop_last());
        let before = inputs_of(calls.drop_last());
        let (s, told) = run(before);
        match calls.last() {
            Call::Line(data) => match input_in(data) {
                Some(input) => {
                    assert(before.push(input).drop_last() =~= before);
                },
                None => {
                    assert(told + Seq::<events::Event>::empty() =~= told);
                },
            },
            Call::Flush => {
                assert(before.push(Input::Flush).drop_last() =~= before);
            },
        }
    }
}

} // verus!
