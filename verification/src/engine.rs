//! Engine streams: a periodic heartbeat per session id, until cancelled.

use crate::event::{
    base64_standard, data_event, encodable_len, error_event, exit_event, flow_after, EventView,
    Flow, TerminalEvent,
};
use crate::state::{lookup, TerminalState};
use crate::text::{decimal, decimal_digits, joined, owned};
use std::time::{SystemTime, UNIX_EPOCH};
use vstd::prelude::*;
use vstd::utf8::encode_utf8;

verus! {

/// The seconds between two heartbeats of a stream.
pub const HEARTBEAT_INTERVAL_SECS: u64 = 1;

/// A point in time, counted from the Unix epoch.
#[derive(Debug, Clone, Copy, PartialEq, Eq)]
pub struct Timestamp {
    pub secs: u64,
    pub nanos: u32,
}

/// One heartbeat of an engine stream.
#[derive(Debug, Clone, PartialEq, Eq)]
pub struct EngineHeartbeat {
    pub seq: u64,
    pub timestamp: Timestamp,
    pub level: &'static str,
    pub message: String,
}

/// The system clock's point in time, `std::time::SystemTime`.
#[verifier::external_type_specification]
#[verifier::external_body]
pub struct ExSystemTime(SystemTime);

/// Calls `SystemTime::now`. The result depends on the clock, so nothing is
/// claimed of it.
#[verifier::external_body]
fn system_now() -> (now: SystemTime) {
    SystemTime::now()
}

/// Calls `SystemTime::duration_since` with the Unix epoch and renders the
/// duration as seconds and nanoseconds; `None` where the time stands before
/// the epoch. The nanoseconds are the fraction of a second that
/// `Duration::subsec_nanos` gives, which is below one billion.
#[verifier::external_body]
fn since_epoch(time: SystemTime) -> (since: Option<Timestamp>)
    ensures
        since matches Some(t) ==> t.nanos < 1_000_000_000,
{
    match time.duration_since(UNIX_EPOCH) {
        Ok(since) => Some(Timestamp { secs: since.as_secs(), nanos: since.subsec_nanos() }),
        Err(_) => None,
    }
}

/// The text of the heartbeat numbered `seq`.
pub open spec fn heartbeat_text(seq: u64) -> Seq<char> {
    "engine heartbeat "@ + decimal_digits(seq as nat)
}

impl EngineHeartbeat {
    /// The heartbeat numbered `seq`, taken at `timestamp`.
    pub fn at(seq: u64, timestamp: Timestamp) -> (heartbeat: Self)
        ensures
            heartbeat.seq == seq,
            heartbeat.timestamp == timestamp,
            heartbeat.level@ == "info"@,
            heartbeat.message@ == heartbeat_text(seq),
    {
        let number = decimal(seq);
        EngineHeartbeat {
            seq,
            timestamp,
            level: "info",
            message: joined("engine heartbeat ", number.as_str()),
        }
    }

    /// The heartbeat numbered `seq`, taken now. Where the clock stands
    /// before the epoch the timestamp is zero.
    pub fn new(seq: u64) -> (heartbeat: Self)
        ensures
            heartbeat.seq == seq,
            heartbeat.timestamp.nanos < 1_000_000_000,
            heartbeat.level@ == "info"@,
            heartbeat.message@ == heartbeat_text(seq),
    {
        let timestamp = match since_epoch(system_now()) {
            Some(now) => now,
            None => Timestamp { secs: 0, nanos: 0 },
        };
        EngineHeartbeat::at(seq, timestamp)
    }
}

/// The state of one running engine stream: its id and the number of the
/// last heartbeat it made.
pub struct EngineStream {
    id: String,
    seq: u64,
}

/// The number of the heartbeat that follows `sent` earlier ones.
pub open spec fn next_seq(sent: nat) -> nat {
    sent + 1
}

/// The numbers of the first `ticks` heartbeats of a stream, in order.
pub open spec fn heartbeat_numbers(ticks: nat) -> Seq<nat>
    decreases ticks,
{
    if ticks == 0 {
        Seq::empty()
    } else {
        let earlier = heartbeat_numbers((ticks - 1) as nat);
        earlier.push(next_seq(earlier.len()))
    }
}

/// What the stream does with a heartbeat once it is serialized.
pub enum EngineStep {
    /// Deliver the data event; the stream goes on if the sink took it and
    /// ends if not.
    Deliver(TerminalEvent),
    /// Deliver the error event; the stream ends.
    Fail(TerminalEvent),
}

impl EngineStep {
    /// What the stream does after this step, given whether the sink took
    /// the event: it waits for the next tick after a heartbeat that was
    /// delivered, and ends after one that was not, or after a failure.
    pub fn after_delivery(&self, delivered: bool) -> (flow: Flow)
        ensures
            flow == flow_after(self is Deliver, delivered),
    {
        match self {
            EngineStep::Deliver(_) => if delivered {
                Flow::GoOn
            } else {
                Flow::Stop
            },
            EngineStep::Fail(_) => Flow::Stop,
        }
    }
}

/// The line that carries a serialized heartbeat.
pub open spec fn heartbeat_line(json: Seq<char>) -> Seq<char> {
    json + "\n"@
}

/// The message of a heartbeat that could not be serialized.
pub open spec fn stream_failure_text(detail: Seq<char>) -> Seq<char> {
    "engine stream error: "@ + detail
}

impl EngineStream {
    /// The session id of the stream.
    pub closed spec fn id(&self) -> Seq<char> {
        self.id@
    }

    /// The number of heartbeats made so far.
    pub closed spec fn sent(&self) -> nat {
        self.seq as nat
    }

    /// A stream for `id` that has made no heartbeat yet.
    pub fn new(id: String) -> (stream: Self)
        ensures
            stream.id() == id@,
            stream.sent() == 0,
    {
        EngineStream { id, seq: 0 }
    }

    /// The session id of the stream.
    pub fn session_id(&self) -> (id: &str)
        ensures
            id@ == self.id(),
    {
        self.id.as_str()
    }

    /// The number of the last heartbeat made.
    pub fn last_seq(&self) -> (seq: u64)
        ensures
            seq == self.sent(),
    {
        self.seq
    }

    /// One tick of the stream. A cancelled stream makes nothing more; a
    /// running one makes the next heartbeat, numbered one above the last.
    pub fn tick(&mut self, cancelled: bool) -> (heartbeat: Option<EngineHeartbeat>)
        requires
            !cancelled ==> old(self).sent() < u64::MAX,
        ensures
            final(self).id() == old(self).id(),
            cancelled ==> heartbeat is None && final(self).sent() == old(self).sent(),
            !cancelled ==> {
                &&& final(self).sent() == next_seq(old(self).sent())
                &&& heartbeat matches Some(made)
                &&& made.seq == final(self).sent()
                &&& made.timestamp.nanos < 1_000_000_000
                &&& made.level@ == "info"@
                &&& made.message@ == heartbeat_text(made.seq)
            },
    {
        if cancelled {
            return None;
        }
        self.seq = self.seq + 1;
        Some(EngineHeartbeat::new(self.seq))
    }

    /// The exit event that is the stream's last word.
    pub fn stopped(&self) -> (event: TerminalEvent)
        ensures
            event@ == (EventView::Exit {
                id: self.id(),
                code: None,
                signal: None,
                message: Some("engine stream stopped"@),
            }),
    {
        exit_event(self.id.as_str(), None, Some(owned("engine stream stopped")))
    }

    /// Frames a serialized heartbeat for delivery: the line is the text and
    /// a newline, sent as one data event under the stream's id. A heartbeat
    /// that could not be serialized is reported and ends the stream.
    pub fn frame(&self, serialized: Result<String, String>) -> (step: EngineStep)
        requires
            serialized matches Ok(json) ==> encodable_len(encode_utf8(heartbeat_line(json@)).len()),
        ensures
            match serialized {
                Ok(json) => step matches EngineStep::Deliver(event) && event@ == (EventView::Data {
                    id: self.id(),
                    data: base64_standard(encode_utf8(heartbeat_line(json@))),
                }),
                Err(detail) => step matches EngineStep::Fail(event) && event@ == (EventView::Error {
                    id: Some(self.id()),
                    message: stream_failure_text(detail@),
                }),
            },
    {
        match serialized {
            Ok(json) => {
                let line = json.concat("\n");
                EngineStep::Deliver(data_event(self.id.as_str(), line.as_str().as_bytes()))
            },
            Err(detail) => EngineStep::Fail(
                error_event(
                    Some(self.id.clone()),
                    joined("engine stream error: ", detail.as_str()),
                ),
            ),
        }
    }
}

/// The engine registry after a start for `id` with `handle`: a stream that
/// is registered stays, and only an id without one gets the new handle.
pub open spec fn started<E>(engines: Map<Seq<char>, E>, id: Seq<char>, handle: E) -> Map<
    Seq<char>,
    E,
> {
    if engines.contains_key(id) {
        engines
    } else {
        engines.insert(id, handle)
    }
}

/// Starts an engine stream for `id`, unless one is running: registers
/// `handle` and hands out the state of the new stream. Where a stream is
/// registered under `id` already, nothing changes and nothing is handed out.
pub fn start_engine_stream<S, E>(state: &mut TerminalState<S, E>, id: &str, handle: E) -> (stream:
    Option<EngineStream>)
    ensures
        final(state).terminals() == old(state).terminals(),
        final(state).tokens() == old(state).tokens(),
        final(state).issued() == old(state).issued(),
        final(state).engines() == started(old(state).engines(), id@, handle),
        stream is Some <==> !old(state).engines().contains_key(id@),
        stream matches Some(fresh) ==> fresh.id() == id@ && fresh.sent() == 0,
{
    if state.has_engine(id) {
        return None;
    }
    state.insert_engine(owned(id), handle);
    Some(EngineStream::new(owned(id)))
}

/// Stops the engine stream of `id`: hands out its handle for the caller to
/// signal cancellation. The stream leaves the registry by itself once it has
/// seen the signal. Without a stream under `id` there is nothing to do.
pub fn stop_engine_stream<'a, S, E>(state: &'a TerminalState<S, E>, id: &str) -> (handle: Option<&'a E>)
    ensures
        match handle {
            Some(found) => lookup(state.engines(), id@) == Some(*found),
            None => lookup(state.engines(), id@) is None,
        },
{
    state.get_engine(id)
}

/// Ends a stream that saw its cancellation or failed, after its exit event
/// went out: removes its entry from the registry.
pub fn finish_engine_stream<S, E>(state: &mut TerminalState<S, E>, stream: EngineStream)
    ensures
        final(state).engines() == old(state).engines().remove(stream.id()),
        final(state).terminals() == old(state).terminals(),
        final(state).tokens() == old(state).tokens(),
        final(state).issued() == old(state).issued(),
{
    let _ = state.take_engine(stream.id.as_str());
}

/// The heartbeats of a stream are numbered 1, 2, 3 and so on, one per tick:
/// each number is one above the one before it.
pub proof fn heartbeats_count_up(ticks: nat)
    ensures
        heartbeat_numbers(ticks).len() == ticks,
        forall|i: int| 0 <= i < ticks ==> #[trigger] heartbeat_numbers(ticks)[i] == i + 1,
        forall|i: int, j: int|
            0 <= i < j < ticks ==> heartbeat_numbers(ticks)[i] < heartbeat_numbers(ticks)[j],
    decreases ticks,
{
    if ticks > 0 {
        heartbeats_count_up((ticks - 1) as nat);
    }
}

/// A tick of a stream that has made `sent` heartbeats adds the number
/// `sent + 1` to the run and changes none of the earlier ones.
pub proof fn tick_extends_the_run(sent: nat)
    ensures
        heartbeat_numbers(sent + 1) == heartbeat_numbers(sent).push(next_seq(sent)),
        heartbeat_numbers(sent + 1).last() == sent + 1,
{
    heartbeats_count_up(sent);
}

/// Two starts in a row for one id leave one stream, the first: the second
/// start changes nothing, whatever handle it brings.
pub proof fn second_start_changes_nothing<E>(
    engines: Map<Seq<char>, E>,
    id: Seq<char>,
    first: E,
    second: E,
)
    ensures
        started(engines, id, first).contains_key(id),
        started(started(engines, id, first), id, second) == started(engines, id, first),
        !engines.contains_key(id) ==> lookup(started(started(engines, id, first), id, second), id)
            == Some(first),
{
}

/// A stop for an id without a stream finds nothing to cancel.
pub proof fn stop_without_stream<E>(engines: Map<Seq<char>, E>, id: Seq<char>)
    requires
        !engines.contains_key(id),
    ensures
        lookup(engines, id) is None,
{
}

} // verus!
