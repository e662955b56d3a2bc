//! The converter that turns the frames of a stream into events.
use crate::models::adapters::openai::events;
use crate::models::adapters::openai::events::block_stop;
use crate::models::adapters::openai::events::input_delta;
use crate::models::adapters::openai::events::message_delta;
use crate::models::adapters::openai::events::message_start;
use crate::models::adapters::openai::events::message_stop;
use crate::models::adapters::openai::events::read_stream_usage;
use crate::models::adapters::openai::events::text_delta;
use crate::models::adapters::openai::events::text_start;
use crate::models::adapters::openai::events::thinking_delta;
use crate::models::adapters::openai::events::thinking_start;
use crate::models::adapters::openai::events::tool_start;
use crate::models::adapters::openai::events::StreamMessageUsage;
use crate::models::adapters::openai::finish::map_finish_reason;
use crate::models::adapters::openai::machine;
use crate::models::types::StreamEvent;
use crate::models::wire_openai::OpenAIStreamChoice;
use crate::models::wire_openai::OpenAIStreamChunk;
use crate::models::wire_openai::OpenAIStreamToolCall;
use crate::shared::decode::FromJson;
use crate::shared::errors;
use crate::shared::errors::Error;
use crate::shared::json;
use crate::shared::json::clone_object;
use crate::shared::json::close_value;
use crate::shared::json::get_member;
use crate::shared::json::open_value;
use crate::shared::json::parse_value;
use crate::shared::json::remove_member;
use crate::shared::json::JsonNode;
use crate::shared::json::JsonObject;
use crate::shared::json::JsonRef;
use crate::shared::text::same_text;
use crate::shared::text::text_after;
use serde_json::Value;
use vstd::prelude::*;

verus! {

/// What tells the tool calls of a stream apart.
#[derive(Debug)]
enum ToolKey {
    /// The index that the gateway gave.
    Index(i64),
    /// The id of a tool call without an index.
    Id(String),
}

impl ToolKey {
    spec fn model(self) -> machine::ToolKeyView {
        match self {
            ToolKey::Index(index) => machine::ToolKeyView::Index(index),
            ToolKey::Id(id) => machine::ToolKeyView::Id(id@),
        }
    }

    fn copy(&self) -> (key: ToolKey)
        ensures
            key.model() == self.model(),
    {
        match self {
            ToolKey::Index(index) => ToolKey::Index(*index),
            ToolKey::Id(id) => ToolKey::Id(id.clone()),
        }
    }

    fn same(&self, other: &ToolKey) -> (same: bool)
        ensures
            same == (self.model() == other.model()),
    {
        match (self, other) {
            (ToolKey::Index(a), ToolKey::Index(b)) => *a == *b,
            (ToolKey::Id(a), ToolKey::Id(b)) => same_text(a.as_str(), b.as_str()),
            _ => false,
        }
    }
}

/// A tool call that has a block.
#[derive(Debug)]
struct ToolBlock {
    key: ToolKey,
    index: i64,
    args: String,
}

impl ToolBlock {
    spec fn model(self) -> machine::ToolBlockView {
        machine::ToolBlockView { key: self.key.model(), index: self.index, args: self.args@ }
    }
}

/// Turns the lines of a stream into events, one line at a time.
///
/// A stream that ends without saying so has to be flushed once; see [`OpenAIStreamConverter::flush`].
#[derive(Debug)]
pub struct OpenAIStreamConverter {
    message_started: bool,
    thinking_started: bool,
    thinking_stopped: bool,
    thinking_block_index: i64,
    text_started: bool,
    tools: Vec<ToolBlock>,
    last_tool_key: Option<ToolKey>,
    block_index: i64,
    message_closed: bool,
    blocks_closed: bool,
    pending_stop_reason: Option<String>,
    usage: Option<StreamMessageUsage>,
}

spec fn tools_model(tools: Seq<ToolBlock>) -> Seq<machine::ToolBlockView> {
    Seq::new(tools.len(), |i: int| tools[i].model())
}

impl View for OpenAIStreamConverter {
    type V = machine::StreamState;

    closed spec fn view(&self) -> machine::StreamState {
        machine::StreamState {
            message_started: self.message_started,
            thinking_started: self.thinking_started,
            thinking_stopped: self.thinking_stopped,
            thinking_block_index: self.thinking_block_index,
            text_started: self.text_started,
            tools: tools_model(self.tools@),
            last_tool_key: match self.last_tool_key {
                Some(key) => Some(key.model()),
                None => None,
            },
            block_index: self.block_index,
            message_closed: self.message_closed,
            blocks_closed: self.blocks_closed,
            pending_stop_reason: match self.pending_stop_reason {
                Some(reason) => Some(reason@),
                None => None,
            },
            usage: self.usage,
        }
    }
}

/// `after` and the events added to `before` are what the step says.
spec fn follows(
    after: machine::StreamState,
    before: Seq<StreamEvent>,
    written: Seq<StreamEvent>,
    step: machine::Step,
) -> bool {
    after == step.0 && events::appended(before, written, step.1)
}

/// `error` is the complaint about a frame. How it goes on is not fixed.
pub open spec fn frame_error(error: errors::ErrorView) -> bool {
    error matches errors::ErrorView::Other(message) && machine::bad_chunk(
        Seq::empty(),
    ).is_prefix_of(message)
}

/// `error` is the complaint about a line: that of the JSON parser, where the line is no JSON.
pub open spec fn line_error(error: errors::ErrorView, data: Seq<char>) -> bool {
    match json::json_parse(data) {
        Ok(_) => frame_error(error),
        Err(message) => error == errors::ErrorView::Other(machine::bad_chunk(message)),
    }
}

/// `result` is what becomes of a frame.
pub open spec fn frame_told(
    result: errors::Result<Vec<StreamEvent>>,
    before: machine::StreamState,
    after: machine::StreamState,
    frame: json::Json,
) -> bool {
    match machine::on_frame(before, frame) {
        Some(step) => {
            &&& after == step.0
            &&& result matches Ok(written) && events::tell(written@, step.1)
        },
        None => {
            &&& after == before
            &&& result matches Err(error) && frame_error(error@)
        },
    }
}

/// `result` is what becomes of a line.
pub open spec fn line_told(
    result: errors::Result<(Vec<StreamEvent>, bool)>,
    before: machine::StreamState,
    after: machine::StreamState,
    data: Seq<char>,
) -> bool {
    match machine::on_line(before, data) {
        Some((step, done)) => {
            &&& after == step.0
            &&& result matches Ok((written, d)) && events::tell(written@, step.1) && d == done
        },
        None => {
            &&& after == before
            &&& result matches Err(error) && line_error(error@, data)
        },
    }
}

fn optional_text(s: &Option<String>) -> (text: &str)
    ensures
        text@ == machine::text_of(s.deep_view()),
{
    match s {
        Some(text) => text.as_str(),
        None => {
            proof {
                reveal_strlit("");
            }
            assert(""@ =~= Seq::empty());
            ""
        },
    }
}

impl Default for OpenAIStreamConverter {
    fn default() -> (converter: OpenAIStreamConverter)
        ensures
            converter@ == machine::fresh(),
    {
        OpenAIStreamConverter::new()
    }
}

impl OpenAIStreamConverter {
    /// A converter for a new stream.
    pub fn new() -> (converter: OpenAIStreamConverter)
        ensures
            converter@ == machine::fresh(),
    {
        OpenAIStreamConverter {
            message_started: false,
            thinking_started: false,
            thinking_stopped: false,
            thinking_block_index: 0,
            text_started: false,
            tools: Vec::new(),
            last_tool_key: None,
            block_index: 0,
            message_closed: false,
            blocks_closed: false,
            pending_stop_reason: None,
            usage: None,
        }
    }

    fn advance(&mut self)
        ensures
            final(self)@ == (machine::StreamState {
                block_index: machine::next_index(old(self)@.block_index),
                ..old(self)@
            }),
    {
        self.block_index = self.block_index.wrapping_add(1);
    }

    fn start_message(&mut self, id: &str, out: &mut Vec<StreamEvent>)
        ensures
            follows(
                final(self)@,
                old(out)@,
                final(out)@,
                machine::start_message(old(self)@, id@),
            ),
    {
        if !self.message_started {
            self.message_started = true;
            let event: StreamEvent = message_start(id);
            proof {
                events::lemma_appended_one(
                    out@,
                    event,
                    events::Event::MessageStart { id: id@ },
                );
            }
            out.push(event);
        } else {
            proof {
                events::lemma_appended_nothing(out@);
            }
        }
    }

    fn stop_thinking(&mut self, out: &mut Vec<StreamEvent>)
        ensures
            follows(final(self)@, old(out)@, final(out)@, machine::stop_thinking(old(self)@)),
    {
        if self.thinking_started && !self.thinking_stopped {
            self.thinking_stopped = true;
            let event: StreamEvent = block_stop(self.thinking_block_index);
            proof {
                events::lemma_appended_one(
                    out@,
                    event,
                    events::Event::BlockStop { index: self.thinking_block_index },
                );
            }
            out.push(event);
            self.advance();
        } else {
            proof {
                events::lemma_appended_nothing(out@);
            }
        }
    }

    fn stop_text(&mut self, out: &mut Vec<StreamEvent>)
        ensures
            follows(final(self)@, old(out)@, final(out)@, machine::stop_text(old(self)@)),
    {
        if self.text_started {
            let event: StreamEvent = block_stop(self.block_index);
            proof {
                events::lemma_appended_one(
                    out@,
                    event,
                    events::Event::BlockStop { index: self.block_index },
                );
            }
            out.push(event);
            self.advance();
            self.text_started = false;
        } else {
            proof {
                events::lemma_appended_nothing(out@);
            }
        }
    }

    fn on_reasoning(&mut self, text: &str, out: &mut Vec<StreamEvent>)
        ensures
            follows(
                final(self)@,
                old(out)@,
                final(out)@,
                machine::on_reasoning(old(self)@, text@),
            ),
    {
        if text.is_empty() {
            proof {
                events::lemma_appended_nothing(out@);
            }
            return ;
        }
        let ghost before = out@;
        let ghost started = machine::start_thinking(self@);
        self.start_thinking(out);
        let event: StreamEvent = thinking_delta(self.thinking_block_index, text);
        proof {
            let told = events::Event::BlockDelta {
                index: self.thinking_block_index,
                piece: events::Piece::Thinking(text@),
            };
            events::lemma_appended_one(out@, event, told);
            events::lemma_appended_both(before, out@, out@.push(event), started.1, seq![told]);
        }
        out.push(event);
    }

    fn start_thinking(&mut self, out: &mut Vec<StreamEvent>)
        ensures
            follows(final(self)@, old(out)@, final(out)@, machine::start_thinking(old(self)@)),
    {
        if self.thinking_started {
            proof {
                events::lemma_appended_nothing(out@);
            }
            return ;
        }
        let ghost before = out@;
        let ghost stopped = machine::stop_text(self@);
        self.stop_text(out);
        self.thinking_started = true;
        self.thinking_block_index = self.block_index;
        let event: StreamEvent = thinking_start(self.block_index);
        proof {
            let told = events::Event::BlockStart {
                index: self.block_index,
                block: events::Block::Thinking,
            };
            events::lemma_appended_one(out@, event, told);
            events::lemma_appended_both(before, out@, out@.push(event), stopped.1, seq![told]);
        }
        out.push(event);
    }

    fn start_text(&mut self, out: &mut Vec<StreamEvent>)
        ensures
            follows(final(self)@, old(out)@, final(out)@, machine::start_text(old(self)@)),
    {
        if self.text_started {
            proof {
                events::lemma_appended_nothing(out@);
            }
            return ;
        }
        self.text_started = true;
        let event: StreamEvent = text_start(self.block_index);
        proof {
            events::lemma_appended_one(
                out@,
                event,
                events::Event::BlockStart { index: self.block_index, block: events::Block::Text },
            );
        }
        out.push(event);
    }

    fn on_text(&mut self, text: &str, out: &mut Vec<StreamEvent>)
        ensures
            follows(final(self)@, old(out)@, final(out)@, machine::on_text(old(self)@, text@)),
    {
        if text.is_empty() {
            proof {
                events::lemma_appended_nothing(out@);
            }
            return ;
        }
        let ghost before = out@;
        let ghost stopped = machine::stop_thinking(self@);
        self.stop_thinking(out);
        let ghost between = out@;
        let ghost started = machine::start_text(self@);
        self.start_text(out);
        let event: StreamEvent = text_delta(self.block_index, text);
        proof {
            let told = events::Event::BlockDelta {
                index: self.block_index,
                piece: events::Piece::Text(text@),
            };
            events::lemma_appended_both(before, between, out@, stopped.1, started.1);
            events::lemma_appended_one(out@, event, told);
            events::lemma_appended_both(
                before,
                out@,
                out@.push(event),
                stopped.1 + started.1,
                seq![told],
            );
        }
        out.push(event);
    }

    /// Finds out which tool call a piece belongs to, and keeps it for pieces that do not say.
    fn resolve_tool_key(&mut self, call: &OpenAIStreamToolCall) -> (key: ToolKey)
        ensures
            key.model() == machine::tool_key(old(self)@, call.deep_view()),
            call.index matches Some(index) ==> key == ToolKey::Index(index),
            call.index is None && machine::text_of(call.id.deep_view()).len() > 0 ==> key.model()
                == machine::ToolKeyView::Id(machine::text_of(call.id.deep_view())),
            call.index is None && machine::text_of(call.id.deep_view()).len() == 0 ==> key.model()
                == (match old(self)@.last_tool_key {
                Some(last) => last,
                None => machine::ToolKeyView::Index(0),
            }),
            final(self)@ == (machine::StreamState {
                last_tool_key: Some(key.model()),
                ..old(self)@
            }),
    {
        let id: &str = optional_text(&call.id);
        let key: ToolKey = match call.index {
            Some(index) => ToolKey::Index(index),
            None => if !id.is_empty() {
                ToolKey::Id(id.to_string())
            } else {
                match &self.last_tool_key {
                    Some(key) => key.copy(),
                    None => ToolKey::Index(0),
                }
            },
        };
        self.last_tool_key = Some(key.copy());
        key
    }

    /// The place of a tool call among those that have a block.
    fn find_tool(&self, key: &ToolKey) -> (place: Option<usize>)
        ensures
            match place {
                Some(at) => at < self@.tools.len() && at == machine::place_of(
                    self@.tools,
                    key.model(),
                ),
                None => machine::place_of(self@.tools, key.model()) == self@.tools.len(),
            },
    {
        let mut i: usize = 0;
        while i < self.tools.len()
            invariant
                i <= self.tools@.len(),
                self@.tools == tools_model(self.tools@),
                forall|j: int| 0 <= j < i ==> (#[trigger] self@.tools[j]).key != key.model(),
            decreases self.tools@.len() - i,
        {
            assert(self@.tools[i as int].key == self.tools@[i as int].key.model());
            if self.tools[i].key.same(key) {
                proof {
                    machine::lemma_place_found(self@.tools, key.model(), i as int);
                }
                return Some(i);
            }
            i += 1;
        }
        proof {
            machine::lemma_place_missing(self@.tools, key.model());
        }
        None
    }

    fn start_tool(&mut self, key: &ToolKey, call: &OpenAIStreamToolCall, out: &mut Vec<StreamEvent>)
        ensures
            follows(
                final(self)@,
                old(out)@,
                final(out)@,
                machine::start_tool(old(self)@, key.model(), call.deep_view()),
            ),
    {
        if self.find_tool(key).is_some() {
            proof {
                events::lemma_appended_nothing(out@);
            }
            return ;
        }
        let ghost before = out@;
        let ghost thought = machine::stop_thinking(self@);
        self.stop_thinking(out);
        let ghost between = out@;
        let ghost said = machine::stop_text(self@);
        self.stop_text(out);
        let ghost state = self@;
        let index: i64 = self.block_index;
        let event: StreamEvent = tool_start(index, &call.id, &call.function.name);
        let tool: ToolBlock = ToolBlock { key: key.copy(), index, args: String::new() };
        assert(tools_model(self.tools@.push(tool)) =~= state.tools.push(tool.model()));
        self.tools.push(tool);
        self.advance();
        proof {
            let told = events::Event::BlockStart {
                index,
                block: events::Block::ToolUse {
                    id: call.deep_view().id,
                    name: call.deep_view().function.name,
                },
            };
            events::lemma_appended_both(before, between, out@, thought.1, said.1);
            events::lemma_appended_one(out@, event, told);
            events::lemma_appended_both(
                before,
                out@,
                out@.push(event),
                thought.1 + said.1,
                seq![told],
            );
        }
        out.push(event);
    }

    fn add_input(&mut self, key: &ToolKey, raw: &str, out: &mut Vec<StreamEvent>)
        requires
            machine::place_of(old(self)@.tools, key.model()) < old(self)@.tools.len(),
        ensures
            follows(
                final(self)@,
                old(out)@,
                final(out)@,
                machine::add_input(old(self)@, key.model(), raw@),
            ),
    {
        if raw.is_empty() {
            proof {
                events::lemma_appended_nothing(out@);
            }
            return ;
        }
        let ghost state = self@;
        match self.find_tool(key) {
            Some(at) => {
                let sent: String = self.tools[at].args.clone();
                let piece: &str = if sent.as_str().is_empty() || raw.unicode_len()
                    <= sent.as_str().unicode_len() {
                    raw
                } else {
                    match text_after(raw, sent.as_str()) {
                        Some(rest) => rest,
                        None => raw,
                    }
                };
                assert(piece@ == machine::unsent(sent@, raw@));
                let index: i64 = self.tools[at].index;
                let tool: ToolBlock = ToolBlock {
                    key: self.tools[at].key.copy(),
                    index,
                    args: sent.concat(piece),
                };
                assert(tools_model(self.tools@.update(at as int, tool)) =~= state.tools.update(
                    at as int,
                    tool.model(),
                ));
                self.tools.set(at, tool);
                let event: StreamEvent = input_delta(index, piece);
                proof {
                    events::lemma_appended_one(
                        out@,
                        event,
                        events::Event::BlockDelta { index, piece: events::Piece::Input(piece@) },
                    );
                }
                out.push(event);
            },
            None => {},
        }
    }

    fn on_tool(&mut self, call: &OpenAIStreamToolCall, out: &mut Vec<StreamEvent>)
        ensures
            follows(
                final(self)@,
                old(out)@,
                final(out)@,
                machine::on_tool(old(self)@, call.deep_view()),
            ),
    {
        let ghost before = out@;
        let key: ToolKey = self.resolve_tool_key(call);
        let ghost started = machine::start_tool(self@, key.model(), call.deep_view());
        self.start_tool(&key, call, out);
        let ghost between = out@;
        proof {
            machine::lemma_started_tool_has_block(
                machine::StreamState { last_tool_key: Some(key.model()), ..old(self)@ },
                key.model(),
                call.deep_view(),
            );
        }
        let ghost added = machine::add_input(self@, key.model(), call.function.arguments@);
        self.add_input(&key, call.function.arguments.as_str(), out);
        proof {
            events::lemma_appended_both(before, between, out@, started.1, added.1);
        }
    }

    fn on_tools(&mut self, calls: &Vec<OpenAIStreamToolCall>, out: &mut Vec<StreamEvent>)
        ensures
            follows(
                final(self)@,
                old(out)@,
                final(out)@,
                machine::on_tools(old(self)@, calls.deep_view()),
            ),
    {
        let ghost before = out@;
        let ghost state = self@;
        let ghost all = calls.deep_view();
        let mut i: usize = 0;
        proof {
            events::lemma_appended_nothing(before);
            assert(all.take(0) =~= Seq::empty());
        }
        while i < calls.len()
            invariant
                i <= calls@.len(),
                all == calls.deep_view(),
                follows(self@, before, out@, machine::on_tools(state, all.take(i as int))),
            decreases calls@.len() - i,
        {
            let ghost earlier = machine::on_tools(state, all.take(i as int));
            let ghost between = out@;
            let ghost told = machine::on_tool(self@, all[i as int]);
            self.on_tool(&calls[i], out);
            proof {
                assert(all.take(i + 1).drop_last() =~= all.take(i as int));
                assert(all.take(i + 1).last() == all[i as int]);
                events::lemma_appended_both(before, between, out@, earlier.1, told.1);
            }
            i += 1;
        }
        assert(all.take(i as int) =~= all);
    }

    /// Stops the blocks that are open: the one of text or thinking, and then those of the tool calls, in
    /// the order in which they started. Once that has happened, nothing is added.
    fn close_content_blocks(&mut self, out: &mut Vec<StreamEvent>)
        ensures
            follows(final(self)@, old(out)@, final(out)@, machine::close_blocks(old(self)@)),
            final(self)@.blocks_closed,
            old(self)@.blocks_closed ==> final(out)@ == old(out)@,
            !old(self)@.blocks_closed ==> events::appended(
                old(out)@,
                final(out)@,
                machine::last_stop(old(self)@) + machine::tool_stops(old(self)@.tools),
            ),
    {
        if self.blocks_closed {
            proof {
                events::lemma_appended_nothing(out@);
            }
            return ;
        }
        let ghost before = out@;
        let ghost state = self@;
        self.blocks_closed = true;
        if self.text_started {
            let event: StreamEvent = block_stop(self.block_index);
            proof {
                events::lemma_appended_one(
                    out@,
                    event,
                    events::Event::BlockStop { index: self.block_index },
                );
            }
            out.push(event);
        } else if self.thinking_started && !self.thinking_stopped {
            self.thinking_stopped = true;
            let event: StreamEvent = block_stop(self.thinking_block_index);
            proof {
                events::lemma_appended_one(
                    out@,
                    event,
                    events::Event::BlockStop { index: self.thinking_block_index },
                );
            }
            out.push(event);
        } else {
            proof {
                events::lemma_appended_nothing(out@);
            }
        }
        let ghost last = machine::last_stop(state);
        assert(events::appended(before, out@, last));
        let ghost stops = machine::tool_stops(state.tools);
        let mut i: usize = 0;
        assert(last + stops.take(0) =~= last);
        while i < self.tools.len()
            invariant
                i <= self.tools@.len(),
                self@ == machine::close_blocks(state).0,
                stops == machine::tool_stops(state.tools),
                state.tools == tools_model(self.tools@),
                events::appended(before, out@, last + stops.take(i as int)),
            decreases self.tools@.len() - i,
        {
            let event: StreamEvent = block_stop(self.tools[i].index);
            proof {
                assert(stops[i as int] == events::Event::BlockStop {
                    index: self.tools@[i as int].index,
                });
                events::lemma_appended_one(out@, event, stops[i as int]);
                events::lemma_appended_both(
                    before,
                    out@,
                    out@.push(event),
                    last + stops.take(i as int),
                    seq![stops[i as int]],
                );
                assert(last + stops.take(i as int) + seq![stops[i as int]] =~= last + stops.take(
                    i + 1,
                ));
            }
            out.push(event);
            i += 1;
        }
        assert(stops.take(i as int) =~= stops);
    }

    fn emit_message_end(&mut self, stop_reason: &str, out: &mut Vec<StreamEvent>)
        ensures
            follows(
                final(self)@,
                old(out)@,
                final(out)@,
                machine::end_message(old(self)@, stop_reason@),
            ),
    {
        if self.message_closed {
            proof {
                events::lemma_appended_nothing(out@);
            }
            return ;
        }
        self.message_closed = true;
        self.pending_stop_reason = None;
        let delta: StreamEvent = message_delta(stop_reason, &self.usage);
        let stop: StreamEvent = message_stop();
        proof {
            let told = events::Event::MessageDelta { stop_reason: stop_reason@, usage: self.usage };
            let ended = events::Event::MessageStop;
            events::lemma_appended_one(out@, delta, told);
            events::lemma_appended_one(out@.push(delta), stop, ended);
            events::lemma_appended_both(
                out@,
                out@.push(delta),
                out@.push(delta).push(stop),
                seq![told],
                seq![ended],
            );
            assert(seq![told] + seq![ended] =~= seq![told, ended]);
        }
        out.push(delta);
        out.push(stop);
    }

    fn release(&mut self, out: &mut Vec<StreamEvent>)
        ensures
            follows(final(self)@, old(out)@, final(out)@, machine::release(old(self)@)),
    {
        let pending: Option<String> = match &self.pending_stop_reason {
            Some(reason) => Some(reason.clone()),
            None => None,
        };
        match pending {
            Some(reason) => self.emit_message_end(reason.as_str(), out),
            None => {
                proof {
                    events::lemma_appended_nothing(out@);
                }
            },
        }
    }

    fn on_finish(&mut self, finish_reason: &str, out: &mut Vec<StreamEvent>)
        ensures
            follows(
                final(self)@,
                old(out)@,
                final(out)@,
                machine::on_finish(old(self)@, finish_reason@),
            ),
    {
        if finish_reason.is_empty() || self.message_closed || self.pending_stop_reason.is_some() {
            proof {
                events::lemma_appended_nothing(out@);
            }
            return ;
        }
        let ghost before = out@;
        let ghost stopped = machine::close_blocks(self@);
        self.close_content_blocks(out);
        let ghost between = out@;
        let reason: String = map_finish_reason(finish_reason);
        if self.usage.is_some() {
            let ghost ended = machine::end_message(self@, reason@);
            self.emit_message_end(reason.as_str(), out);
            proof {
                events::lemma_appended_both(before, between, out@, stopped.1, ended.1);
            }
        } else {
            self.pending_stop_reason = Some(reason);
        }
    }

    fn on_choice(&mut self, id: &str, choice: &OpenAIStreamChoice, out: &mut Vec<StreamEvent>)
        ensures
            follows(
                final(self)@,
                old(out)@,
                final(out)@,
                machine::on_choice(old(self)@, id@, choice.deep_view()),
            ),
    {
        let ghost told = choice.deep_view();
        let ghost o0 = out@;
        let ghost started = machine::start_message(self@, id@);
        self.start_message(id, out);
        let ghost o1 = out@;
        let ghost thought = machine::on_reasoning(
            self@,
            machine::text_of(told.delta.reasoning_content),
        );
        self.on_reasoning(optional_text(&choice.delta.reasoning_content), out);
        let ghost o2 = out@;
        let ghost said = machine::on_text(self@, machine::text_of(told.delta.content));
        self.on_text(optional_text(&choice.delta.content), out);
        let ghost o3 = out@;
        let ghost called = machine::on_tools(self@, machine::calls_of(told));
        match &choice.delta.tool_calls {
            Some(calls) => self.on_tools(calls, out),
            None => {
                proof {
                    events::lemma_appended_nothing(o3);
                }
            },
        }
        let ghost o4 = out@;
        let ghost finished = machine::on_finish(self@, machine::text_of(told.finish_reason));
        self.on_finish(optional_text(&choice.finish_reason), out);
        proof {
            events::lemma_appended_both(o0, o1, o2, started.1, thought.1);
            events::lemma_appended_both(o0, o2, o3, started.1 + thought.1, said.1);
            events::lemma_appended_both(o0, o3, o4, started.1 + thought.1 + said.1, called.1);
            events::lemma_appended_both(
                o0,
                o4,
                out@,
                started.1 + thought.1 + said.1 + called.1,
                finished.1,
            );
        }
    }

    /// Takes a frame and the usage that it carries, and returns the events that come of it.
    pub fn convert_chunk(
        &mut self,
        chunk: &OpenAIStreamChunk,
        usage: Option<StreamMessageUsage>,
    ) -> (out: Vec<StreamEvent>)
        ensures
            final(self)@ == machine::on_chunk(old(self)@, chunk.deep_view(), usage).0,
            events::tell(out@, machine::on_chunk(old(self)@, chunk.deep_view(), usage).1),
    {
        let ghost frame = chunk.deep_view();
        let ghost carried = usage;
        let mut out: Vec<StreamEvent> = Vec::new();
        let ghost o0 = out@;
        let carries_usage: bool = usage.is_some();
        if carries_usage {
            self.usage = usage;
        }
        assert(self@ == machine::take_usage(old(self)@, carried));
        let ghost s1 = self@;
        let ghost told = if frame.choices.len() > 0 {
            machine::on_choice(s1, frame.id, frame.choices[0])
        } else {
            machine::stay(s1)
        };
        if chunk.choices.len() > 0 {
            self.on_choice(chunk.id.as_str(), &chunk.choices[0], &mut out);
        } else {
            proof {
                events::lemma_appended_nothing(o0);
            }
        }
        let ghost o1 = out@;
        let ghost ended = machine::on_usage(self@, carried);
        if carries_usage {
            self.release(&mut out);
        } else {
            proof {
                events::lemma_appended_nothing(o1);
            }
        }
        proof {
            events::lemma_appended_both(o0, o1, out@, told.1, ended.1);
            assert(out@.skip(0) =~= out@);
        }
        out
    }

    /// Takes a frame, and returns the events that come of it. A frame that cannot be read changes
    /// nothing.
    pub fn convert_frame(&mut self, frame: &Value) -> (result: errors::Result<Vec<StreamEvent>>)
        ensures
            frame_told(result, old(self)@, final(self)@, json::value_json(*frame)),
    {
        let (read, usage): (Result<OpenAIStreamChunk, String>, Option<StreamMessageUsage>) =
            match open_value(frame) {
            JsonRef::Object(members) => {
                let usage: Option<StreamMessageUsage> = read_stream_usage(
                    get_member(members, "usage"),
                );
                let mut rest: JsonObject = clone_object(members);
                remove_member(&mut rest, "usage");
                let rest: Value = close_value(JsonNode::Object(rest));
                (OpenAIStreamChunk::from_value(&rest), usage)
            },
            _ => (OpenAIStreamChunk::from_value(frame), None),
        };
        match read {
            Ok(chunk) => Ok(self.convert_chunk(&chunk, usage)),
            Err(message) => Err(complain_chunk(message.as_str())),
        }
    }

    /// Takes a line, and returns the events that come of it and whether it announces the end of the
    /// stream. A line that cannot be read changes nothing.
    pub fn convert(&mut self, data: &str) -> (result: errors::Result<(Vec<StreamEvent>, bool)>)
        ensures
            line_told(result, old(self)@, final(self)@, data@),
    {
        if same_text(data, "[DONE]") {
            return Ok((self.convert_done(), true));
        }
        match parse_value(data) {
            Ok(frame) => match self.convert_frame(&frame) {
                Ok(out) => Ok((out, false)),
                Err(error) => Err(error),
            },
            Err(message) => Err(complain_chunk(message.as_str())),
        }
    }

    fn convert_done(&mut self) -> (out: Vec<StreamEvent>)
        ensures
            final(self)@ == machine::on_done(old(self)@).0,
            events::tell(out@, machine::on_done(old(self)@).1),
    {
        let mut out: Vec<StreamEvent> = Vec::new();
        let ghost o0 = out@;
        if self.pending_stop_reason.is_some() {
            self.release(&mut out);
        } else if self.message_started {
            let ghost stopped = machine::close_blocks(self@);
            self.close_content_blocks(&mut out);
            let ghost o1 = out@;
            let ghost ended = machine::end_message(self@, "end_turn"@);
            self.emit_message_end("end_turn", &mut out);
            proof {
                events::lemma_appended_both(o0, o1, out@, stopped.1, ended.1);
            }
        } else {
            proof {
                events::lemma_appended_nothing(o0);
            }
        }
        assert(out@.skip(0) =~= out@);
        out
    }

    /// Ends a message whose end has waited for a usage that did not come. To be called once, when a
    /// stream has ended without announcing it. A stream that was cut off gets no end.
    pub fn flush(&mut self) -> (out: Vec<StreamEvent>)
        ensures
            final(self)@ == machine::release(old(self)@).0,
            events::tell(out@, machine::release(old(self)@).1),
    {
        let mut out: Vec<StreamEvent> = Vec::new();
        self.release(&mut out);
        assert(out@.skip(0) =~= out@);
        out
    }
}

fn complain_chunk(message: &str) -> (error: Error)
    ensures
        error@ == errors::ErrorView::Other(machine::bad_chunk(message@)),
        frame_error(error@),
{
    assert(machine::bad_chunk(Seq::empty()).is_prefix_of(machine::bad_chunk(message@)));
    Error::other("parse openai stream chunk: ".to_string().concat(message))
}

/// A converter for a new stream.
pub fn new_openai_stream_converter() -> (converter: OpenAIStreamConverter)
    ensures
        converter@ == machine::fresh(),
{
    OpenAIStreamConverter::new()
}

} // verus!
