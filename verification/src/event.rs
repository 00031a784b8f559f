//! Events delivered to the sink: data chunks, exits and errors.

use base64::engine::general_purpose;
use base64::Engine;
use crate::text::{opt_text, owned};
use vstd::prelude::*;

verus! {

/// How a child process ended, as far as the operating system told.
#[derive(Debug, Clone, PartialEq, Eq)]
pub struct ExitInfo {
    pub code: Option<i32>,
    pub signal: Option<String>,
}

impl ExitInfo {
    /// The status of a process that ended with `code` and, where a signal
    /// ended it, the name of that signal. A code beyond the range of `i32`
    /// is not carried.
    pub fn exited(code: u32, signal: Option<String>) -> (info: ExitInfo)
        ensures
            info.code == (if code <= i32::MAX as u32 {
                Some(code as i32)
            } else {
                None::<i32>
            }),
            info.signal == signal,
    {
        let code = if code <= 2147483647 {
            Some(code as i32)
        } else {
            None
        };
        ExitInfo { code, signal }
    }
}

/// One notification for the sink.
#[derive(Debug, Clone, PartialEq, Eq)]
#[allow(inconsistent_fields)]
pub enum TerminalEvent {
    /// A chunk of output, encoded as text.
    Data { id: String, data: String },
    /// The last event of a session or stream.
    Exit { id: String, code: Option<i32>, signal: Option<String>, message: Option<String> },
    /// A failure, tied to a session where one is known.
    Error { id: Option<String>, message: String },
}

/// The mathematical value of a [`TerminalEvent`].
#[allow(inconsistent_fields)]
pub ghost enum EventView {
    Data { id: Seq<char>, data: Seq<char> },
    Exit { id: Seq<char>, code: Option<i32>, signal: Option<Seq<char>>, message: Option<Seq<char>> },
    Error { id: Option<Seq<char>>, message: Seq<char> },
}

impl View for TerminalEvent {
    type V = EventView;

    open spec fn view(&self) -> EventView {
        match *self {
            TerminalEvent::Data { id, data } => EventView::Data { id: id@, data: data@ },
            TerminalEvent::Exit { id, code, signal, message } => EventView::Exit {
                id: id@,
                code,
                signal: opt_text(signal),
                message: opt_text(message),
            },
            TerminalEvent::Error { id, message } => EventView::Error {
                id: opt_text(id),
                message: message@,
            },
        }
    }
}

/// The standard base64 text (with padding) of a byte string.
pub uninterp spec fn base64_standard(bytes: Seq<u8>) -> Seq<char>;

/// Whether the encoded length of `len` bytes can be counted in a `usize`.
pub open spec fn encodable_len(len: nat) -> bool {
    len / 3 * 4 + 4 <= usize::MAX
}

/// Says whether `len` bytes can be encoded.
pub fn can_encode(len: usize) -> (fits: bool)
    ensures
        fits == encodable_len(len as nat),
{
    len / 3 <= (usize::MAX - 4) / 4
}

/// Calls `Engine::encode` on `base64::engine::general_purpose::STANDARD`.
/// The claim is only that the result is a function of the bytes, named
/// [`base64_standard`]. The call panics when the length of the text cannot
/// be counted in a `usize`, which the precondition leaves out.
#[verifier::external_body]
fn encode_base64(bytes: &[u8]) -> (text: String)
    requires
        encodable_len(bytes@.len()),
    ensures
        text@ == base64_standard(bytes@),
{
    general_purpose::STANDARD.encode(bytes)
}

/// The data event that carries `bytes` for session `id`.
pub fn data_event(id: &str, bytes: &[u8]) -> (event: TerminalEvent)
    requires
        encodable_len(bytes@.len()),
    ensures
        event@ == (EventView::Data { id: id@, data: base64_standard(bytes@) }),
{
    TerminalEvent::Data { id: String::from_str(id), data: encode_base64(bytes) }
}

/// The values of a list of events, in order.
pub open spec fn event_views(events: Seq<TerminalEvent>) -> Seq<EventView> {
    Seq::new(events.len(), |i: int| events[i]@)
}

/// The exit code that a status carries.
pub open spec fn status_code(status: Option<ExitInfo>) -> Option<i32> {
    match status {
        Some(info) => info.code,
        None => None,
    }
}

/// The signal name that a status carries.
pub open spec fn status_signal(status: Option<ExitInfo>) -> Option<Seq<char>> {
    match status {
        Some(info) => opt_text(info.signal),
        None => None,
    }
}

/// The exit event of session `id`: it carries the code and the signal of
/// `status`, where the wait for the process gave one, and `message`.
pub fn exit_event(id: &str, status: Option<ExitInfo>, message: Option<String>) -> (event:
    TerminalEvent)
    ensures
        event@ == (EventView::Exit {
            id: id@,
            code: status_code(status),
            signal: status_signal(status),
            message: opt_text(message),
        }),
{
    match status {
        Some(info) => TerminalEvent::Exit {
            id: owned(id),
            code: info.code,
            signal: info.signal,
            message,
        },
        None => TerminalEvent::Exit { id: owned(id), code: None, signal: None, message },
    }
}

/// The error event that reports `message`, for session `id` where one is
/// known.
pub fn error_event(id: Option<String>, message: String) -> (event: TerminalEvent)
    ensures
        event@ == (EventView::Error { id: opt_text(id), message: message@ }),
{
    TerminalEvent::Error { id, message }
}

impl TerminalEvent {
    /// The name of the channel that carries events of this kind.
    pub open spec fn channel_name(self) -> Seq<char> {
        match self {
            TerminalEvent::Data { .. } => "terminal://data"@,
            TerminalEvent::Exit { .. } => "terminal://exit"@,
            TerminalEvent::Error { .. } => "terminal://error"@,
        }
    }

    /// The channel on which the sink expects this event.
    pub fn channel(&self) -> (name: &'static str)
        ensures
            name@ == self.channel_name(),
    {
        match self {
            TerminalEvent::Data { .. } => "terminal://data",
            TerminalEvent::Exit { .. } => "terminal://exit",
            TerminalEvent::Error { .. } => "terminal://error",
        }
    }
}

/// What a worker loop does next.
#[derive(Debug, Clone, Copy, PartialEq, Eq)]
pub enum Flow {
    /// The loop takes its next turn.
    GoOn,
    /// The loop ends.
    Stop,
}

/// What follows a step of a worker loop: the loop goes on only after a step
/// that forwards data, and only if the sink took the event.
pub open spec fn flow_after(forwards: bool, delivered: bool) -> Flow {
    if forwards && delivered {
        Flow::GoOn
    } else {
        Flow::Stop
    }
}

} // verus!
