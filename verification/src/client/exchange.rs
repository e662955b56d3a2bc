//! An HTTP exchange, from the request to the end of the response.
//!
//! Whoever drives an exchange asks it before each look at the transport whether the exchange is to
//! be broken off, and tells it what came of the look.
use crate::client::transport::HttpResponseMode;
use crate::client::transport::TransportError;
use vstd::prelude::*;

verus! {

/// What an exchange waits for.
#[derive(Debug, Clone, Copy, PartialEq, Eq, Structural)]
pub enum Waiting {
    Headers,
    Body,
    Nothing,
}

/// What a look at the transport brought.
#[derive(Debug, Clone, Copy, PartialEq, Eq, Structural)]
pub enum Arrival {
    Nothing,
    Headers,
    Chunk,
    End,
    Failed(TransportError),
}

/// What the exchange hands on.
#[derive(Debug, Clone, Copy, PartialEq, Eq, Structural)]
pub enum Progress {
    Wait,
    Headers,
    Chunk,
    End,
    Fail(TransportError),
}

/// An exchange.
#[derive(Debug, Clone, Copy, PartialEq, Eq, Structural)]
pub struct Exchange {
    pub mode: HttpResponseMode,
    pub waiting: Waiting,
}

/// An exchange that is over.
pub open spec fn over(e: Exchange) -> Exchange {
    Exchange { waiting: Waiting::Nothing, ..e }
}

/// Why an exchange is to be broken off before a look at the transport. Cancellation counts before all
/// else. The time of a buffered exchange covers its body, that of a streaming one does not.
pub open spec fn interruption(e: Exchange, cancelled: bool, expired: bool) -> Option<
    TransportError,
> {
    if e.waiting == Waiting::Nothing {
        None
    } else if cancelled {
        Some(TransportError::Cancelled)
    } else if e.waiting == Waiting::Body && e.mode == HttpResponseMode::Buffered && expired {
        Some(TransportError::Timeout)
    } else {
        None
    }
}

/// What becomes of an exchange after a look at the transport. Headers that are there count though the
/// time is up.
pub open spec fn on_arrival(e: Exchange, arrival: Arrival, expired: bool) -> (Exchange, Progress) {
    match (e.waiting, arrival) {
        (Waiting::Nothing, _) => (e, Progress::End),
        (_, Arrival::Failed(error)) => (over(e), Progress::Fail(error)),
        (Waiting::Headers, Arrival::Headers) => (
            Exchange { waiting: Waiting::Body, ..e },
            Progress::Headers,
        ),
        (Waiting::Headers, _) => if expired {
            (over(e), Progress::Fail(TransportError::Timeout))
        } else {
            (e, Progress::Wait)
        },
        (Waiting::Body, Arrival::Chunk) => (e, Progress::Chunk),
        (Waiting::Body, Arrival::End) => (over(e), Progress::End),
        (Waiting::Body, _) => (e, Progress::Wait),
    }
}

/// What becomes of an exchange in one turn.
pub open spec fn turn(e: Exchange, cancelled: bool, expired: bool, arrival: Arrival) -> (
    Exchange,
    Progress,
) {
    match interruption(e, cancelled, expired) {
        Some(error) => (over(e), Progress::Fail(error)),
        None => on_arrival(e, arrival, expired),
    }
}

impl Exchange {
    /// An exchange whose request is being sent.
    pub fn new(mode: HttpResponseMode) -> (exchange: Exchange)
        ensures
            exchange == (Exchange { mode, waiting: Waiting::Headers }),
    {
        Exchange { mode, waiting: Waiting::Headers }
    }

    /// Before a look at the transport: breaks the exchange off, where it is to be.
    pub fn interrupt(&mut self, cancelled: bool, expired: bool) -> (error: Option<TransportError>)
        ensures
            error == interruption(*old(self), cancelled, expired),
            *final(self) == (if error is Some {
                over(*old(self))
            } else {
                *old(self)
            }),
    {
        if self.waiting == Waiting::Nothing {
            return None;
        }
        let error: Option<TransportError> = if cancelled {
            Some(TransportError::Cancelled)
        } else if self.waiting == Waiting::Body && self.mode == HttpResponseMode::Buffered && expired {
            Some(TransportError::Timeout)
        } else {
            None
        };
        if error.is_some() {
            self.waiting = Waiting::Nothing;
        }
        error
    }

    /// After a look at the transport: says what is handed on.
    pub fn arrive(&mut self, arrival: Arrival, expired: bool) -> (progress: Progress)
        ensures
            (*final(self), progress) == on_arrival(*old(self), arrival, expired),
    {
        match (self.waiting, arrival) {
            (Waiting::Nothing, _) => Progress::End,
            (_, Arrival::Failed(error)) => {
                self.waiting = Waiting::Nothing;
                Progress::Fail(error)
            },
            (Waiting::Headers, Arrival::Headers) => {
                self.waiting = Waiting::Body;
                Progress::Headers
            },
            (Waiting::Headers, _) => if expired {
                self.waiting = Waiting::Nothing;
                Progress::Fail(TransportError::Timeout)
            } else {
                Progress::Wait
            },
            (Waiting::Body, Arrival::Chunk) => Progress::Chunk,
            (Waiting::Body, Arrival::End) => {
                self.waiting = Waiting::Nothing;
                Progress::End
            },
            (Waiting::Body, _) => Progress::Wait,
        }
    }
}

/// One turn of an exchange: whether it has been cancelled, whether its time is up, and what a look at
/// the transport brought.
pub ghost struct Turn {
    pub cancelled: bool,
    pub expired: bool,
    pub arrival: Arrival,
}

/// What an exchange hands on, turn by turn.
pub open spec fn run(mode: HttpResponseMode, turns: Seq<Turn>) -> (Exchange, Seq<Progress>)
    decreases turns.len(),
{
    if turns.len() == 0 {
        (Exchange { mode, waiting: Waiting::Headers }, Seq::empty())
    } else {
        let (e, before) = run(mode, turns.drop_last());
        let t = turns.last();
        let (next, progress) = turn(e, t.cancelled, t.expired, t.arrival);
        (next, before.push(progress))
    }
}

/// What is handed on ends the exchange.
pub open spec fn is_last(progress: Progress) -> bool {
    progress is End || progress is Fail
}

/// Headers have been handed on.
pub open spec fn has_headers(out: Seq<Progress>) -> bool
    decreases out.len(),
{
    out.len() > 0 && (has_headers(out.drop_last()) || out.last() is Headers)
}

/// The exchange has ended or failed.
pub open spec fn has_ended(out: Seq<Progress>) -> bool
    decreases out.len(),
{
    out.len() > 0 && (has_ended(out.drop_last()) || is_last(out.last()))
}

/// Headers come once, parts of the body come after them, and nothing comes after the end.
pub open spec fn in_order(out: Seq<Progress>) -> bool
    decreases out.len(),
{
    out.len() > 0 ==> {
        let before = out.drop_last();
        &&& in_order(before)
        &&& out.last() is Headers ==> !has_headers(before)
        &&& out.last() is Chunk ==> has_headers(before)
        &&& has_ended(before) ==> out.last() is End
    }
}

/// Whatever happens, an exchange hands its headers on once, parts of the body after them, and nothing
/// after its end.
pub proof fn law_exchange_is_in_order(mode: HttpResponseMode, turns: Seq<Turn>)
    ensures
        in_order(run(mode, turns).1),
        run(mode, turns).0.mode == mode,
        match run(mode, turns).0.waiting {
            Waiting::Headers => !has_headers(run(mode, turns).1) && !has_ended(run(mode, turns).1),
            Waiting::Body => has_headers(run(mode, turns).1) && !has_ended(run(mode, turns).1),
            Waiting::Nothing => has_ended(run(mode, turns).1),
        },
    decreases turns.len(),
{
    if turns.len() > 0 {
        law_exchange_is_in_order(mode, turns.drop_last());
        let (e, before) = run(mode, turns.drop_last());
        let t = turns.last();
        let progress = turn(e, t.cancelled, t.expired, t.arrival).1;
        assert(before.push(progress).drop_last() =~= before);
    }
}

/// Cancellation breaks every exchange off that is under way, whatever else has come.
pub proof fn law_cancellation_wins(e: Exchange, expired: bool, arrival: Arrival)
    requires
        e.waiting != Waiting::Nothing,
    ensures
        turn(e, true, expired, arrival) == (over(e), Progress::Fail(TransportError::Cancelled)),
{
}

/// Once the headers of a streaming exchange are there, its time plays no part.
pub proof fn law_stream_body_has_no_deadline(e: Exchange, cancelled: bool, arrival: Arrival)
    requires
        e.mode == HttpResponseMode::Streaming,
        e.waiting == Waiting::Body,
    ensures
        turn(e, cancelled, true, arrival) == turn(e, cancelled, false, arrival),
{
}

/// A buffered exchange whose time is up does not go on reading.
pub proof fn law_buffered_body_has_a_deadline(e: Exchange, arrival: Arrival)
    requires
        e.mode == HttpResponseMode::Buffered,
        e.waiting == Waiting::Body,
    ensures
        turn(e, false, true, arrival) == (over(e), Progress::Fail(TransportError::Timeout)),
{
}

/// No exchange waits for headers when its time is up.
pub proof fn law_headers_have_a_deadline(e: Exchange, cancelled: bool, arrival: Arrival)
    requires
        e.waiting == Waiting::Headers,
    ensures
        turn(e, cancelled, true, arrival).0.waiting != Waiting::Headers,
{
}

} // verus!
