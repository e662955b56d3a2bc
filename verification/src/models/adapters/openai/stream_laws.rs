//! What holds of every use of a converter: what goes in with the lines comes out with the events.
use crate::models::adapters::openai::content_laws;
use crate::models::adapters::openai::document_laws;
use crate::models::adapters::openai::events;
use crate::models::adapters::openai::events::StreamMessageUsage;
use crate::models::adapters::openai::laws;
use crate::models::adapters::openai::machine;
use crate::models::adapters::openai::stream::new_openai_stream_converter;
use crate::models::adapters::openai::stream::OpenAIStreamConverter;
use crate::models::types::StreamEvent;
use crate::models::wire_openai;
use crate::models::wire_openai::OpenAIStreamChoice;
use crate::models::wire_openai::OpenAIStreamChunk;
use crate::shared::decode::FromJson;
use crate::shared::decode_laws;
use crate::shared::documents;
use crate::shared::errors;
use crate::shared::json;
use serde_json::Value;
use vstd::prelude::*;

verus! {

/// The text that a part is; empty, where it is none.
pub open spec fn text_or_none(part: Option<json::Json>) -> Seq<char> {
    if documents::is_text(part) {
        part->Some_0->Str_0
    } else {
        Seq::empty()
    }
}

/// The first of the choices of a frame.
pub open spec fn first_choice(frame: json::Json) -> Option<json::Json> {
    let choices = documents::part(frame, 2, "choices"@);
    if choices is Some && choices->Some_0 is Array && choices->Some_0->Array_0.len() > 0 {
        Some(choices->Some_0->Array_0[0])
    } else {
        None
    }
}

/// The part of what the first choice of a frame adds.
pub open spec fn delta_part(frame: json::Json, place: int, name: Seq<char>) -> Option<json::Json> {
    let choice = first_choice(frame);
    if choice is Some && documents::part(choice->Some_0, 1, "delta"@) is Some {
        documents::part(documents::part(choice->Some_0, 1, "delta"@)->Some_0, place, name)
    } else {
        None
    }
}

/// The text that a frame adds.
pub open spec fn text_in_frame(frame: json::Json) -> Seq<char> {
    text_or_none(delta_part(frame, 1, "content"@))
}

/// The thinking that a frame adds.
pub open spec fn thinking_in_frame(frame: json::Json) -> Seq<char> {
    text_or_none(delta_part(frame, 2, "reasoning_content"@))
}

/// The finish reason of a frame.
pub open spec fn finish_in_frame(frame: json::Json) -> Seq<char> {
    if first_choice(frame) is Some {
        text_or_none(documents::part(first_choice(frame)->Some_0, 2, "finish_reason"@))
    } else {
        Seq::empty()
    }
}

/// The frame without the member `usage`, where it is an object.
pub open spec fn frame_but_usage(frame: json::Json) -> json::Json {
    if frame is Object {
        json::Json::Object(frame->Object_0.remove("usage"@))
    } else {
        frame
    }
}

/// The frame can be read. What its usage is does not matter.
pub open spec fn is_frame(frame: json::Json) -> bool {
    OpenAIStreamChunk::from_json(frame_but_usage(frame)) is Some
}

/// A text, where there is one.
pub open spec fn given(text: Option<Seq<char>>) -> Seq<char> {
    if text is Some {
        text->Some_0
    } else {
        Seq::empty()
    }
}

proof fn lemma_usage_aside()
    ensures
        "id"@ != "usage"@,
        "object"@ != "usage"@,
        "choices"@ != "usage"@,
{
    reveal_strlit("id");
    reveal_strlit("object");
    reveal_strlit("choices");
    reveal_strlit("usage");
    assert("id"@.len() == 2);
    assert("object"@.len() == 6);
    assert("choices"@.len() == 7);
    assert("usage"@.len() == 5);
}

/// What is read of a frame is what stands in it.
pub proof fn law_frame_is_read_as_it_is(frame: json::Json)
    requires
        is_frame(frame),
    ensures
        ({
            let chunk = OpenAIStreamChunk::from_json(frame_but_usage(frame))->Some_0;
            &&& chunk.id == text_or_none(documents::part(frame, 0, "id"@))
            &&& chunk.choices.len() > 0 <==> first_choice(frame) is Some
            &&& chunk.choices.len() > 0 ==> {
                &&& given(chunk.choices[0].delta.content) == text_in_frame(frame)
                &&& given(chunk.choices[0].delta.reasoning_content) == thinking_in_frame(frame)
                &&& given(chunk.choices[0].finish_reason) == finish_in_frame(frame)
            }
        }),
{
    lemma_usage_aside();
    let rest = frame_but_usage(frame);
    let choices = documents::part(frame, 2, "choices"@);
    assert(documents::part(rest, 2, "choices"@) == choices);
    assert(documents::part(rest, 0, "id"@) == documents::part(frame, 0, "id"@));
    let chunk = OpenAIStreamChunk::from_json(rest)->Some_0;
    if choices is Some && choices->Some_0 is Array {
        let items = choices->Some_0->Array_0;
        decode_laws::law_items_are_read_one_by_one::<OpenAIStreamChoice>(items);
        if items.len() > 0 {
            assert(OpenAIStreamChoice::from_json(items[0]) == Some(chunk.choices[0]));
        }
    }
    assert(chunk.id =~= text_or_none(documents::part(frame, 0, "id"@)));
}

/// The input that a frame is.
spec fn input_of_frame(frame: json::Json) -> laws::Input {
    laws::Input::Chunk {
        chunk: OpenAIStreamChunk::from_json(frame_but_usage(frame))->Some_0,
        usage: events::usage_of(machine::raw_usage(frame)),
    }
}

proof fn lemma_step_adds(s: machine::StreamState, input: laws::Input)
    ensures
        ({
            let docs = document_laws::docs_of(laws::step(s, input).1);
            &&& document_laws::all_added(docs, "text"@) == text_of_input(input)
            &&& document_laws::all_added(docs, "thinking"@) == thinking_of_input(input)
        }),
{
    document_laws::law_documents_add_what_events_add(laws::step(s, input).1);
    content_laws::law_step_adds_its_content(s, input);
}

/// The text of an input.
pub open spec fn text_of_input(input: laws::Input) -> Seq<char> {
    if input is Chunk && input->chunk.choices.len() > 0 {
        given(input->chunk.choices[0].delta.content)
    } else {
        Seq::empty()
    }
}

/// The thinking of an input.
pub open spec fn thinking_of_input(input: laws::Input) -> Seq<char> {
    if input is Chunk && input->chunk.choices.len() > 0 {
        given(input->chunk.choices[0].delta.reasoning_content)
    } else {
        Seq::empty()
    }
}

/// The text of the inputs, one after the other.
pub open spec fn text_of_inputs(inputs: Seq<laws::Input>) -> Seq<char>
    decreases inputs.len(),
{
    if inputs.len() == 0 {
        Seq::empty()
    } else {
        text_of_inputs(inputs.drop_last()) + text_of_input(inputs.last())
    }
}

/// The thinking of the inputs, one after the other.
pub open spec fn thinking_of_inputs(inputs: Seq<laws::Input>) -> Seq<char>
    decreases inputs.len(),
{
    if inputs.len() == 0 {
        Seq::empty()
    } else {
        thinking_of_inputs(inputs.drop_last()) + thinking_of_input(inputs.last())
    }
}

proof fn lemma_added_both(a: Seq<json::Json>, b: Seq<json::Json>, name: Seq<char>)
    ensures
        document_laws::all_added(a + b, name) == document_laws::all_added(a, name)
            + document_laws::all_added(b, name),
    decreases b.len(),
{
    if b.len() == 0 {
        assert(a + b =~= a);
        assert(document_laws::all_added(a, name) + Seq::<char>::empty()
            =~= document_laws::all_added(a, name));
    } else {
        lemma_added_both(a, b.drop_last(), name);
        assert((a + b).drop_last() =~= a + b.drop_last());
        assert((a + b).last() == b.last());
        assert(document_laws::all_added(a + b, name) =~= document_laws::all_added(a, name)
            + document_laws::all_added(b, name));
    }
}

proof fn lemma_docs_both(a: Seq<events::Event>, b: Seq<events::Event>)
    ensures
        document_laws::docs_of(a + b) == document_laws::docs_of(a) + document_laws::docs_of(b),
{
    assert(document_laws::docs_of(a + b) =~= document_laws::docs_of(a) + document_laws::docs_of(b));
}

/// The texts that can be read out of the documents of a stream are the text of its frames, and the
/// thinking that can be read out of them is their thinking: all of it, in order, character for
/// character.
pub proof fn law_documents_hold_what_frames_hold(inputs: Seq<laws::Input>)
    ensures
        ({
            let docs = document_laws::docs_of(laws::run(inputs).1);
            &&& document_laws::all_added(docs, "text"@) == text_of_inputs(inputs)
            &&& document_laws::all_added(docs, "thinking"@) == thinking_of_inputs(inputs)
        }),
    decreases inputs.len(),
{
    if inputs.len() > 0 {
        let (s, before) = laws::run(inputs.drop_last());
        let out = laws::step(s, inputs.last()).1;
        law_documents_hold_what_frames_hold(inputs.drop_last());
        lemma_step_adds(s, inputs.last());
        lemma_docs_both(before, out);
        lemma_added_both(
            document_laws::docs_of(before),
            document_laws::docs_of(out),
            "text"@,
        );
        lemma_added_both(
            document_laws::docs_of(before),
            document_laws::docs_of(out),
            "thinking"@,
        );
    }
}

/// A new converter has been called for nothing yet.
pub proof fn law_new_converter_has_told_nothing(
    a: OpenAIStreamConverter,
    b: OpenAIStreamConverter,
    c: OpenAIStreamConverter,
)
    requires
        call_ensures(OpenAIStreamConverter::new, (), a),
        call_ensures(new_openai_stream_converter, (), b),
        call_ensures(<OpenAIStreamConverter as Default>::default, (), c),
    ensures
        a@ == laws::run(Seq::empty()).0,
        b@ == a@,
        c@ == a@,
        laws::run(Seq::empty()).1.len() == 0,
{
}

/// A frame that is handed over goes to the stream as one more input, and the events that come back are
/// printed from the documents of what it adds. The text and the thinking in them are those of the
/// frame.
pub proof fn law_chunk_is_one_more_input(
    converter: &mut OpenAIStreamConverter,
    inputs: Seq<laws::Input>,
    chunk: OpenAIStreamChunk,
    usage: Option<StreamMessageUsage>,
    out: Vec<StreamEvent>,
)
    requires
        call_ensures(OpenAIStreamConverter::convert_chunk, (converter, &chunk, usage), out),
        old(converter)@ == laws::run(inputs).0,
    ensures
        ({
            let input = laws::Input::Chunk { chunk: chunk.deep_view(), usage };
            let (s, before) = laws::run(inputs);
            let (t, after) = laws::run(inputs.push(input));
            let docs = document_laws::docs_of(laws::step(s, input).1);
            &&& final(converter)@ == t
            &&& after == before + laws::step(s, input).1
            &&& document_laws::all_printed(out@, docs)
            &&& chunk.choices@.len() > 0 ==> document_laws::all_added(docs, "text"@) == given(
                chunk.choices@[0].delta.content.deep_view(),
            ) && document_laws::all_added(docs, "thinking"@) == given(
                chunk.choices@[0].delta.reasoning_content.deep_view(),
            )
            &&& chunk.choices@.len() == 0 ==> document_laws::all_added(docs, "text"@).len() == 0
                && document_laws::all_added(docs, "thinking"@).len() == 0
        }),
{
    let input = laws::Input::Chunk { chunk: chunk.deep_view(), usage };
    let s = laws::run(inputs).0;
    assert(inputs.push(input).drop_last() =~= inputs);
    document_laws::law_told_events_are_printed(out@, laws::step(s, input).1);
    lemma_step_adds(s, input);
    assert(chunk.choices.deep_view().len() == chunk.choices@.len());
    if chunk.choices@.len() > 0 {
        assert(chunk.choices.deep_view()[0] == chunk.choices@[0].deep_view());
    }
}

/// The error says that a frame could not be read.
pub open spec fn says_bad_frame(error: errors::Error) -> bool {
    error is Other && exists|rest: Seq<char>|
        error->Other_0@ == #[trigger] ("parse openai stream chunk: "@ + rest)
}

/// A document that is a frame is converted: the text and the thinking that can be read out of the
/// documents of the events are those that stand in the frame. A document that is no frame is an error,
/// and changes nothing.
pub proof fn law_frame_goes_in_and_its_content_comes_out(
    converter: &mut OpenAIStreamConverter,
    frame: Value,
    result: errors::Result<Vec<StreamEvent>>,
)
    requires
        call_ensures(OpenAIStreamConverter::convert_frame, (converter, &frame), result),
    ensures
        result is Ok <==> is_frame(json::value_json(frame)),
        result matches Ok(out) ==> exists|docs: Seq<json::Json>| #[trigger]
            document_laws::all_printed(out@, docs) && document_laws::all_added(docs, "text"@)
                == text_in_frame(json::value_json(frame)) && document_laws::all_added(
                docs,
                "thinking"@,
            ) == thinking_in_frame(json::value_json(frame)),
        result is Err ==> final(converter)@ == old(converter)@ && says_bad_frame(result->Err_0),
{
    let doc = json::value_json(frame);
    assert(machine::without_usage(doc) == frame_but_usage(doc));
    if is_frame(doc) {
        let input = input_of_frame(doc);
        let told = laws::step(old(converter)@, input).1;
        law_frame_is_read_as_it_is(doc);
        lemma_step_adds(old(converter)@, input);
        document_laws::law_told_events_are_printed(result->Ok_0@, told);
        let docs = document_laws::docs_of(told);
        assert(document_laws::all_printed(result->Ok_0@, docs));
        if first_choice(doc) is None {
            assert(text_in_frame(doc) =~= Seq::empty());
        }
    } else {
        lemma_bad_frame(result->Err_0);
    }
}

/// The usage that a frame carries is read out of its member `usage`.
pub proof fn law_usage_of_a_frame_is_its_member(
    frame: json::Json,
    usage: Option<StreamMessageUsage>,
)
    ensures
        document_laws::gives_usage(documents::member(frame, "usage"@), usage) <==> usage
            == events::usage_of(machine::raw_usage(frame)),
{
}

/// A document that is a frame goes to the stream as one more input: its chunk is what is read of it
/// without its usage, and its usage is what its member `usage` gives. The events that come back are
/// printed from the documents of what it adds.
pub proof fn law_frame_is_one_more_input(
    converter: &mut OpenAIStreamConverter,
    frame: Value,
    usage: Option<StreamMessageUsage>,
    result: errors::Result<Vec<StreamEvent>>,
)
    requires
        call_ensures(OpenAIStreamConverter::convert_frame, (converter, &frame), result),
        is_frame(json::value_json(frame)),
        document_laws::gives_usage(
            documents::member(json::value_json(frame), "usage"@),
            usage,
        ),
    ensures
        ({
            let chunk = OpenAIStreamChunk::from_json(
                frame_but_usage(json::value_json(frame)),
            )->Some_0;
            let (t, out) = laws::step(old(converter)@, laws::Input::Chunk { chunk, usage });
            &&& final(converter)@ == t
            &&& result is Ok
            &&& document_laws::all_printed(result->Ok_0@, document_laws::docs_of(out))
        }),
{
    let doc = json::value_json(frame);
    assert(machine::without_usage(doc) == frame_but_usage(doc));
    law_usage_of_a_frame_is_its_member(doc, usage);
    let input = input_of_frame(doc);
    document_laws::law_told_events_are_printed(
        result->Ok_0@,
        laws::step(old(converter)@, input).1,
    );
}

/// A line goes to the stream as one more input: the frame in it, or, where it is `[DONE]`, the
/// announcement of the end. A flush is one more input too.
pub proof fn law_line_is_one_more_input(
    converter: &mut OpenAIStreamConverter,
    flushed: &mut OpenAIStreamConverter,
    data: &str,
    usage: Option<StreamMessageUsage>,
    result: errors::Result<(Vec<StreamEvent>, bool)>,
    out: Vec<StreamEvent>,
)
    requires
        call_ensures(OpenAIStreamConverter::convert, (converter, data), result),
        call_ensures(OpenAIStreamConverter::flush, (flushed,), out),
    ensures
        data@ == "[DONE]"@ ==> {
            let (t, told) = laws::step(old(converter)@, laws::Input::Done);
            &&& final(converter)@ == t
            &&& document_laws::all_printed(result->Ok_0.0@, document_laws::docs_of(told))
        },
        data@ != "[DONE]"@ && json::json_parse(data@) is Ok && is_frame(
            json::json_parse(data@)->Ok_0,
        ) && document_laws::gives_usage(
            documents::member(json::json_parse(data@)->Ok_0, "usage"@),
            usage,
        ) ==> {
            let chunk = OpenAIStreamChunk::from_json(
                frame_but_usage(json::json_parse(data@)->Ok_0),
            )->Some_0;
            let (t, told) = laws::step(old(converter)@, laws::Input::Chunk { chunk, usage });
            &&& final(converter)@ == t
            &&& document_laws::all_printed(result->Ok_0.0@, document_laws::docs_of(told))
        },
        ({
            let (t, told) = laws::step(old(flushed)@, laws::Input::Flush);
            &&& final(flushed)@ == t
            &&& document_laws::all_printed(out@, document_laws::docs_of(told))
        }),
{
    document_laws::law_told_events_are_printed(
        out@,
        laws::step(old(flushed)@, laws::Input::Flush).1,
    );
    if data@ == "[DONE]"@ {
        document_laws::law_told_events_are_printed(
            result->Ok_0.0@,
            laws::step(old(converter)@, laws::Input::Done).1,
        );
    } else if json::json_parse(data@) is Ok && is_frame(json::json_parse(data@)->Ok_0) {
        let doc = json::json_parse(data@)->Ok_0;
        assert(machine::without_usage(doc) == frame_but_usage(doc));
        law_usage_of_a_frame_is_its_member(doc, usage);
        document_laws::law_told_events_are_printed(
            result->Ok_0.0@,
            laws::step(old(converter)@, input_of_frame(doc)).1,
        );
    }
}

proof fn lemma_bad_frame(error: errors::Error)
    requires
        crate::models::adapters::openai::stream::frame_error(error@),
    ensures
        says_bad_frame(error),
{
    let head = "parse openai stream chunk: "@;
    let message = error->Other_0@;
    assert(head + Seq::<char>::empty() =~= head);
    assert(machine::bad_chunk(Seq::empty()).is_prefix_of(message));
    assert(message =~= head + message.skip(head.len() as int));
}

/// A line is converted as the frame in it; the line `[DONE]`, and no other, announces the end; a line
/// that is no frame is an error, and changes nothing.
pub proof fn law_line_goes_in_and_its_content_comes_out(
    converter: &mut OpenAIStreamConverter,
    data: &str,
    result: errors::Result<(Vec<StreamEvent>, bool)>,
)
    requires
        call_ensures(OpenAIStreamConverter::convert, (converter, data), result),
    ensures
        data@ == "[DONE]"@ ==> result is Ok,
        result is Ok ==> (result->Ok_0.1 <==> data@ == "[DONE]"@),
        data@ != "[DONE]"@ ==> (result is Ok <==> json::json_parse(data@) is Ok && is_frame(
            json::json_parse(data@)->Ok_0,
        )),
        result is Ok ==> exists|docs: Seq<json::Json>| #[trigger]
            document_laws::all_printed(result->Ok_0.0@, docs) && document_laws::all_added(
                docs,
                "text"@,
            ) == text_in_line(data@) && document_laws::all_added(docs, "thinking"@)
                == thinking_in_line(data@),
        result is Err ==> final(converter)@ == old(converter)@ && says_bad_frame(result->Err_0),
{
    if data@ == "[DONE]"@ {
        let told = laws::step(old(converter)@, laws::Input::Done).1;
        lemma_step_adds(old(converter)@, laws::Input::Done);
        document_laws::law_told_events_are_printed(result->Ok_0.0@, told);
        assert(document_laws::all_printed(result->Ok_0.0@, document_laws::docs_of(told)));
    } else if json::json_parse(data@) is Ok {
        let doc = json::json_parse(data@)->Ok_0;
        assert(machine::without_usage(doc) == frame_but_usage(doc));
        if is_frame(doc) {
            let input = input_of_frame(doc);
            let told = laws::step(old(converter)@, input).1;
            law_frame_is_read_as_it_is(doc);
            lemma_step_adds(old(converter)@, input);
            document_laws::law_told_events_are_printed(result->Ok_0.0@, told);
            let docs = document_laws::docs_of(told);
            assert(document_laws::all_printed(result->Ok_0.0@, docs));
            if first_choice(doc) is None {
                assert(text_in_frame(doc) =~= Seq::empty());
            }
        } else {
            lemma_bad_frame(result->Err_0);
        }
    } else {
        lemma_bad_frame_text(json::json_parse(data@)->Err_0, result->Err_0);
    }
}

proof fn lemma_bad_frame_text(message: Seq<char>, error: errors::Error)
    requires
        error@ == errors::ErrorView::Other(machine::bad_chunk(message)),
    ensures
        says_bad_frame(error),
{
    assert(error->Other_0@ == "parse openai stream chunk: "@ + message);
}

/// The text in a line.
pub open spec fn text_in_line(data: Seq<char>) -> Seq<char> {
    if data != "[DONE]"@ && json::json_parse(data) is Ok && is_frame(json::json_parse(data)->Ok_0) {
        text_in_frame(json::json_parse(data)->Ok_0)
    } else {
        Seq::empty()
    }
}

/// The thinking in a line.
pub open spec fn thinking_in_line(data: Seq<char>) -> Seq<char> {
    if data != "[DONE]"@ && json::json_parse(data) is Ok && is_frame(json::json_parse(data)->Ok_0) {
        thinking_in_frame(json::json_parse(data)->Ok_0)
    } else {
        Seq::empty()
    }
}

/// The text in the lines of the calls, one after the other.
pub open spec fn text_in_calls(calls: Seq<laws::Call>) -> Seq<char>
    decreases calls.len(),
{
    if calls.len() == 0 {
        Seq::empty()
    } else {
        text_in_calls(calls.drop_last()) + match calls.last() {
            laws::Call::Line(data) => text_in_line(data),
            laws::Call::Flush => Seq::empty(),
        }
    }
}

/// The thinking in the lines of the calls, one after the other.
pub open spec fn thinking_in_calls(calls: Seq<laws::Call>) -> Seq<char>
    decreases calls.len(),
{
    if calls.len() == 0 {
        Seq::empty()
    } else {
        thinking_in_calls(calls.drop_last()) + match calls.last() {
            laws::Call::Line(data) => thinking_in_line(data),
            laws::Call::Flush => Seq::empty(),
        }
    }
}

/// A line is one more call of a converter, and so is a flush: what comes back is printed from the
/// documents of what it adds to all that the converter was called for.
pub proof fn law_calls_follow_each_other(
    converter: &mut OpenAIStreamConverter,
    flushed: &mut OpenAIStreamConverter,
    calls: Seq<laws::Call>,
    data: &str,
    result: errors::Result<(Vec<StreamEvent>, bool)>,
    out: Vec<StreamEvent>,
)
    requires
        call_ensures(OpenAIStreamConverter::convert, (converter, data), result),
        call_ensures(OpenAIStreamConverter::flush, (flushed,), out),
        old(converter)@ == laws::answers(calls).0,
        old(flushed)@ == laws::answers(calls).0,
    ensures
        ({
            let line = laws::Call::Line(data@);
            let (t, told) = laws::answers(calls.push(line));
            let (u, ended) = laws::answers(calls.push(laws::Call::Flush));
            let before = laws::answers(calls).1;
            &&& final(converter)@ == t
            &&& final(flushed)@ == u
            &&& before.is_prefix_of(told)
            &&& before.is_prefix_of(ended)
            &&& result is Ok ==> document_laws::all_printed(
                result->Ok_0.0@,
                document_laws::docs_of(told.skip(before.len() as int)),
            )
            &&& result is Err ==> told == before
            &&& document_laws::all_printed(
                out@,
                document_laws::docs_of(ended.skip(before.len() as int)),
            )
        }),
{
    let (s, before) = laws::answers(calls);
    let line = laws::Call::Line(data@);
    assert(calls.push(line).drop_last() =~= calls);
    assert(calls.push(laws::Call::Flush).drop_last() =~= calls);
    let told = laws::answers(calls.push(line)).1;
    let ended = laws::answers(calls.push(laws::Call::Flush)).1;
    let more = laws::answer(s, line).1;
    let end = laws::answer(s, laws::Call::Flush).1;
    assert(told.skip(before.len() as int) =~= more);
    assert(ended.skip(before.len() as int) =~= end);
    document_laws::law_told_events_are_printed(out@, end);
    if result is Ok {
        document_laws::law_told_events_are_printed(result->Ok_0.0@, more);
    } else {
        assert(told =~= before);
    }
}

/// Whatever lines a converter gets, the text that can be read out of the documents of all its events
/// is the text in the lines, and the thinking is the thinking in them: all of it, in order, character
/// for character.
pub proof fn law_documents_hold_what_lines_hold(calls: Seq<laws::Call>)
    ensures
        ({
            let docs = document_laws::docs_of(laws::answers(calls).1);
            &&& document_laws::all_added(docs, "text"@) == text_in_calls(calls)
            &&& document_laws::all_added(docs, "thinking"@) == thinking_in_calls(calls)
        }),
    decreases calls.len(),
{
    if calls.len() > 0 {
        law_documents_hold_what_lines_hold(calls.drop_last());
        let (s, before) = laws::answers(calls.drop_last());
        let out = laws::answer(s, calls.last()).1;
        lemma_docs_both(before, out);
        let old_docs = document_laws::docs_of(before);
        let new_docs = document_laws::docs_of(out);
        lemma_added_both(old_docs, new_docs, "text"@);
        lemma_added_both(old_docs, new_docs, "thinking"@);
        match calls.last() {
            laws::Call::Line(data) => {
                if data == "[DONE]"@ {
                    lemma_step_adds(s, laws::Input::Done);
                } else if json::json_parse(data) is Ok {
                    let doc = json::json_parse(data)->Ok_0;
                    assert(machine::without_usage(doc) == frame_but_usage(doc));
                    if is_frame(doc) {
                        law_frame_is_read_as_it_is(doc);
                        lemma_step_adds(s, input_of_frame(doc));
                        if first_choice(doc) is None {
                            assert(text_in_frame(doc) =~= Seq::empty());
                        }
                    }
                }
            },
            laws::Call::Flush => {
                lemma_step_adds(s, laws::Input::Flush);
            },
        }
    }
}

} // verus!
