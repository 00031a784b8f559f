//! Terminal commands: what each request does to the registry, what it asks
//! of the pseudo-terminal, and which events report the outcome.

use crate::event::{error_event, exit_event, event_views, status_code, status_signal, EventView, ExitInfo, TerminalEvent};
use crate::shell::{ResolveError, ShellLaunch};
use crate::state::{lookup, TerminalState};
use crate::text::{joined, owned};
use vstd::prelude::*;

verus! {

/// The columns of a terminal whose request names none.
pub const DEFAULT_COLS: u16 = 80;

/// The rows of a terminal whose request names none.
pub const DEFAULT_ROWS: u16 = 24;

/// The byte that interrupts the foreground process (ETX, Ctrl-C).
pub const INTERRUPT_BYTE: u8 = 3;

/// A request for a new terminal.
#[derive(Debug, Clone, PartialEq, Eq)]
pub struct SpawnTerminalRequest {
    pub id: String,
    pub cols: Option<u16>,
    pub rows: Option<u16>,
    pub use_wsl: Option<bool>,
}

/// The answer to a request that gave a terminal.
#[derive(Debug, Clone, PartialEq, Eq)]
pub struct SpawnTerminalResponse {
    pub shell_label: String,
    pub supports_wsl: bool,
}

/// The dimensions of a terminal. Pixel dimensions are not tracked.
#[derive(Debug, Clone, Copy, PartialEq, Eq)]
pub struct PtySize {
    pub rows: u16,
    pub cols: u16,
    pub pixel_width: u16,
    pub pixel_height: u16,
}

/// The size of `cols` columns and `rows` rows, with pixel dimensions zero.
pub open spec fn cells(cols: u16, rows: u16) -> PtySize {
    PtySize { rows, cols, pixel_width: 0, pixel_height: 0 }
}

/// The size that a request asks for: 80 columns and 24 rows where it names
/// none.
pub open spec fn requested_size(cols: Option<u16>, rows: Option<u16>) -> PtySize {
    cells(
        match cols {
            Some(c) => c,
            None => DEFAULT_COLS,
        },
        match rows {
            Some(r) => r,
            None => DEFAULT_ROWS,
        },
    )
}

/// What a spawn request asks of the caller before the new terminal can be
/// registered: retire `previous`, the session that stood under the id, then
/// open a pseudo-terminal of `size` and run the shell chosen with `use_wsl`.
pub struct SpawnPlan<S> {
    pub previous: Option<S>,
    pub size: PtySize,
    pub use_wsl: bool,
}

/// Begins a spawn: takes any session registered under the request's id out
/// of the registry and lays down the size of the new terminal.
pub fn spawn_terminal<S, E>(state: &mut TerminalState<S, E>, request: &SpawnTerminalRequest) -> (plan:
    SpawnPlan<S>)
    ensures
        final(state).terminals() == old(state).terminals().remove(request.id@),
        final(state).tokens() == old(state).tokens().remove(request.id@),
        final(state).issued() == old(state).issued(),
        final(state).engines() == old(state).engines(),
        plan.previous == lookup(old(state).terminals(), request.id@),
        plan.size == requested_size(request.cols, request.rows),
        plan.use_wsl == (request.use_wsl == Some(true)),
{
    let previous = state.take_terminal(request.id.as_str());
    let cols = match request.cols {
        Some(c) => c,
        None => DEFAULT_COLS,
    };
    let rows = match request.rows {
        Some(r) => r,
        None => DEFAULT_ROWS,
    };
    let use_wsl = match request.use_wsl {
        Some(flag) => flag,
        None => false,
    };
    SpawnPlan { previous, size: PtySize { rows, cols, pixel_width: 0, pixel_height: 0 }, use_wsl }
}

/// The events that report the retirement of a session: an error event where
/// the kill failed, then the exit event, which closes the list.
pub open spec fn retirement(
    id: Seq<char>,
    kill_failed: bool,
    status: Option<ExitInfo>,
    kill_text: Seq<char>,
    exit_text: Seq<char>,
) -> Seq<EventView> {
    let exit = EventView::Exit {
        id,
        code: status_code(status),
        signal: status_signal(status),
        message: Some(exit_text),
    };
    if kill_failed {
        seq![EventView::Error { id: Some(id), message: kill_text }, exit]
    } else {
        seq![exit]
    }
}

/// Builds the events of a retirement.
fn retire_events(
    id: &str,
    kill_failed: bool,
    status: Option<ExitInfo>,
    kill_text: &str,
    exit_text: &str,
) -> (events: Vec<TerminalEvent>)
    ensures
        event_views(events@) == retirement(id@, kill_failed, status, kill_text@, exit_text@),
{
    let mut events: Vec<TerminalEvent> = Vec::new();
    if kill_failed {
        events.push(error_event(Some(owned(id)), owned(kill_text)));
    }
    events.push(exit_event(id, status, Some(owned(exit_text))));
    assert(event_views(events@) =~= retirement(id@, kill_failed, status, kill_text@, exit_text@));
    events
}

/// The events of a restart, in the order they are delivered.
pub open spec fn restart_report(id: Seq<char>, kill_failed: bool, status: Option<ExitInfo>) -> Seq<
    EventView,
> {
    retirement(
        id,
        kill_failed,
        status,
        "failed to stop existing terminal: failed to kill process"@,
        "terminal restarted"@,
    )
}

/// The events that report the end of the session which a spawn replaced.
/// `kill_failed` says whether killing its process failed, `status` is what
/// the wait for its exit gave.
pub fn restart_events(id: &str, kill_failed: bool, status: Option<ExitInfo>) -> (events: Vec<
    TerminalEvent,
>)
    ensures
        event_views(events@) == restart_report(id@, kill_failed, status),
{
    retire_events(
        id,
        kill_failed,
        status,
        "failed to stop existing terminal: failed to kill process",
        "terminal restarted",
    )
}

/// The events of a close, in the order they are delivered.
pub open spec fn close_report(id: Seq<char>, kill_failed: bool, status: Option<ExitInfo>) -> Seq<
    EventView,
> {
    retirement(
        id,
        kill_failed,
        status,
        "failed to kill terminal: failed to kill process"@,
        "terminal closed"@,
    )
}

/// The events that report the end of a session closed on request.
pub fn close_events(id: &str, kill_failed: bool, status: Option<ExitInfo>) -> (events: Vec<
    TerminalEvent,
>)
    ensures
        event_views(events@) == close_report(id@, kill_failed, status),
{
    retire_events(
        id,
        kill_failed,
        status,
        "failed to kill terminal: failed to kill process",
        "terminal closed",
    )
}

/// Why a spawn gave no terminal.
#[derive(Debug, Clone, Copy, PartialEq, Eq)]
pub enum SpawnError {
    /// No shell could be chosen.
    Resolve(ResolveError),
    /// The pseudo-terminal could not be opened.
    OpenPty,
    /// The shell process could not be started.
    SpawnShell,
    /// The read side of the pseudo-terminal could not be had.
    CloneReader,
    /// The write side of the pseudo-terminal could not be had.
    TakeWriter,
}

impl SpawnError {
    /// The text of the error as a caller reads it.
    pub open spec fn message_text(self) -> Seq<char> {
        match self {
            SpawnError::Resolve(error) => error.message_text(),
            SpawnError::OpenPty => "failed to open pty"@,
            SpawnError::SpawnShell => "failed to spawn shell process"@,
            SpawnError::CloneReader => "failed to clone pty reader"@,
            SpawnError::TakeWriter => "failed to acquire pty writer"@,
        }
    }

    /// Renders the error.
    pub fn message(&self) -> (text: String)
        ensures
            text@ == self.message_text(),
    {
        match self {
            SpawnError::Resolve(error) => error.message(),
            SpawnError::OpenPty => owned("failed to open pty"),
            SpawnError::SpawnShell => owned("failed to spawn shell process"),
            SpawnError::CloneReader => owned("failed to clone pty reader"),
            SpawnError::TakeWriter => owned("failed to acquire pty writer"),
        }
    }
}

/// A failed spawn as it is reported twice: `message` to the caller, `event`
/// to the sink.
pub struct SpawnFailure {
    pub message: String,
    pub event: TerminalEvent,
}

/// Reports a failed spawn: the caller gets the error's text, the sink an
/// error event for the session with the same text.
pub fn spawn_failed(id: &str, error: SpawnError) -> (failure: SpawnFailure)
    ensures
        failure.message@ == error.message_text(),
        failure.event@ == (EventView::Error { id: Some(id@), message: error.message_text() }),
{
    SpawnFailure {
        message: error.message(),
        event: error_event(Some(owned(id)), error.message()),
    }
}

/// A terminal as it was registered: the answer for the caller, and the
/// token by which the session's reader loop names it when its output ends.
pub struct Registration {
    pub token: u64,
    pub response: SpawnTerminalResponse,
}

/// Completes a spawn: registers `session` under `id` with a token that no
/// session had before, and answers with the label of the shell that runs in
/// it.
pub fn register_terminal<S, E>(
    state: &mut TerminalState<S, E>,
    id: String,
    session: S,
    launch: ShellLaunch,
) -> (registered: Registration)
    requires
        old(state).issued() < u64::MAX,
    ensures
        final(state).terminals() == old(state).terminals().insert(id@, session),
        final(state).tokens() == old(state).tokens().insert(id@, registered.token),
        registered.token == old(state).issued(),
        final(state).issued() == old(state).issued() + 1,
        final(state).engines() == old(state).engines(),
        registered.response.shell_label@ == launch.label@,
        registered.response.supports_wsl == launch.supports_wsl,
{
    let token = state.insert_terminal(id, session);
    Registration {
        token,
        response: SpawnTerminalResponse {
            shell_label: launch.label,
            supports_wsl: launch.supports_wsl,
        },
    }
}

/// What a command that wrote to a session or resized it answers, and the
/// event that reports its failure to the sink.
pub struct CommandReply {
    pub result: Result<(), String>,
    pub event: Option<TerminalEvent>,
}

/// Reports the outcome of writing to session `id` or resizing it. Success
/// is answered and leaves the sink alone. A failure is reported twice: the
/// caller gets `failure` as the error, the sink an error event for the
/// session with the same text.
pub fn command_reply(id: &str, succeeded: bool, failure: String) -> (reply: CommandReply)
    ensures
        succeeded ==> reply.result is Ok && reply.event is None,
        !succeeded ==> {
            &&& reply.result matches Err(text)
            &&& text@ == failure@
            &&& reply.event matches Some(event)
            &&& event@ == (EventView::Error { id: Some(id@), message: failure@ })
        },
{
    if succeeded {
        CommandReply { result: Ok(()), event: None }
    } else {
        let event = error_event(Some(owned(id)), failure.clone());
        CommandReply { result: Err(failure), event: Some(event) }
    }
}

/// The text that refuses a command for an id without a session.
pub open spec fn not_found_text(id: Seq<char>) -> Seq<char> {
    "terminal "@ + id + " not found"@
}

/// Renders the refusal of a command for an id without a session.
pub fn not_found(id: &str) -> (text: String)
    ensures
        text@ == not_found_text(id@),
{
    joined("terminal ", id).concat(" not found")
}

/// Bytes to write to a session, and the error to return if the write fails.
pub struct WriteOrder<'a, S> {
    pub session: &'a S,
    pub bytes: Vec<u8>,
    pub failure: String,
}

/// A size to apply to a session, and the error to return if that fails.
pub struct ResizeOrder<'a, S> {
    pub session: &'a S,
    pub size: PtySize,
    pub failure: String,
}

/// Forwards `data` verbatim to the session under `id`. Without such a
/// session the command is refused.
pub fn write_to_terminal<'a, S, E>(state: &'a TerminalState<S, E>, id: &str, data: Vec<u8>) -> (order:
    Result<WriteOrder<'a, S>, String>)
    ensures
        match order {
            Ok(order) => {
                &&& state.terminals().contains_key(id@)
                &&& *order.session == state.terminals()[id@]
                &&& order.bytes@ == data@
                &&& order.failure@ == "write failed: failed to write to terminal"@
            },
            Err(text) => !state.terminals().contains_key(id@) && text@ == not_found_text(id@),
        },
{
    match state.get_terminal(id) {
        Some(session) => Ok(
            WriteOrder {
                session,
                bytes: data,
                failure: owned("write failed: failed to write to terminal"),
            },
        ),
        None => Err(not_found(id)),
    }
}

/// Applies `cols` and `rows` to the session under `id`. Without such a
/// session the command is refused.
pub fn resize_terminal<'a, S, E>(state: &'a TerminalState<S, E>, id: &str, cols: u16, rows: u16) -> (order:
    Result<ResizeOrder<'a, S>, String>)
    ensures
        match order {
            Ok(order) => {
                &&& state.terminals().contains_key(id@)
                &&& *order.session == state.terminals()[id@]
                &&& order.size == cells(cols, rows)
                &&& order.failure@ == "resize failed: failed to resize pty"@
            },
            Err(text) => !state.terminals().contains_key(id@) && text@ == not_found_text(id@),
        },
{
    match state.get_terminal(id) {
        Some(session) => Ok(
            ResizeOrder {
                session,
                size: PtySize { rows, cols, pixel_width: 0, pixel_height: 0 },
                failure: owned("resize failed: failed to resize pty"),
            },
        ),
        None => Err(not_found(id)),
    }
}

/// Sends the interrupt byte to the session under `id`. Without such a
/// session the command is refused.
pub fn send_interrupt<'a, S, E>(state: &'a TerminalState<S, E>, id: &str) -> (order: Result<
    WriteOrder<'a, S>,
    String,
>)
    ensures
        match order {
            Ok(order) => {
                &&& state.terminals().contains_key(id@)
                &&& *order.session == state.terminals()[id@]
                &&& order.bytes@ == seq![INTERRUPT_BYTE]
                &&& order.failure@ == "interrupt failed: failed to write to terminal"@
            },
            Err(text) => !state.terminals().contains_key(id@) && text@ == not_found_text(id@),
        },
{
    match state.get_terminal(id) {
        Some(session) => {
            let mut bytes: Vec<u8> = Vec::new();
            bytes.push(INTERRUPT_BYTE);
            assert(bytes@ =~= seq![INTERRUPT_BYTE]);
            Ok(
                WriteOrder {
                    session,
                    bytes,
                    failure: owned("interrupt failed: failed to write to terminal"),
                },
            )
        },
        None => Err(not_found(id)),
    }
}

/// Closes the session under `id`: takes it out of the registry and hands it
/// to the caller, who kills the process, waits for it and delivers
/// [`close_events`]. Without such a session the command is refused and the
/// registry stays as it was.
pub fn close_terminal<S, E>(state: &mut TerminalState<S, E>, id: &str) -> (session: Result<S, String>)
    ensures
        final(state).terminals() == old(state).terminals().remove(id@),
        final(state).tokens() == old(state).tokens().remove(id@),
        final(state).issued() == old(state).issued(),
        final(state).engines() == old(state).engines(),
        match session {
            Ok(session) => old(state).terminals().contains_key(id@) && session == old(
                state,
            ).terminals()[id@],
            Err(text) => {
                &&& !old(state).terminals().contains_key(id@)
                &&& text@ == not_found_text(id@)
                &&& final(state).terminals() == old(state).terminals()
            },
        },
{
    match state.take_terminal(id) {
        Some(session) => Ok(session),
        None => {
            assert(state.terminals() =~= old(state).terminals());
            Err(not_found(id))
        },
    }
}

/// Whether the session registered with `token` still stands under `id`.
pub open spec fn stands(tokens: Map<Seq<char>, u64>, id: Seq<char>, token: u64) -> bool {
    lookup(tokens, id) == Some(token)
}

/// Retires the session registered under `id` with `token` after its output
/// ended: takes it out of the registry, if it still stands there, for the
/// caller to wait for the process and deliver the exit event. A session that
/// a close, a restart or an earlier finalization took is not found again, and
/// a later session under the same id is left alone.
pub fn finalize_terminal<S, E>(state: &mut TerminalState<S, E>, id: &str, token: u64) -> (session:
    Option<S>)
    ensures
        final(state).issued() == old(state).issued(),
        final(state).engines() == old(state).engines(),
        stands(old(state).tokens(), id@, token) ==> {
            &&& final(state).terminals() == old(state).terminals().remove(id@)
            &&& final(state).tokens() == old(state).tokens().remove(id@)
            &&& session == lookup(old(state).terminals(), id@)
            &&& session is Some
        },
        !stands(old(state).tokens(), id@, token) ==> {
            &&& final(state).terminals() == old(state).terminals()
            &&& final(state).tokens() == old(state).tokens()
            &&& session is None
        },
{
    state.take_session(id, token)
}

/// A spawn leaves exactly the new session under its id: whatever stood
/// there before, a command for the id finds the session that was registered
/// last, so a resize that follows the spawn is not refused.
pub proof fn spawn_registers_one_session<S>(before: Map<Seq<char>, S>, id: Seq<char>, session: S)
    ensures
        lookup(before.remove(id).insert(id, session), id) == Some(session),
        before.remove(id).insert(id, session) == before.insert(id, session),
{
    assert(before.remove(id).insert(id, session) =~= before.insert(id, session));
}

/// A resize that follows a spawn with the same dimensions asks for the size
/// the terminal was opened with, of the session that the spawn registered.
pub proof fn resize_after_spawn<S>(
    before: Map<Seq<char>, S>,
    id: Seq<char>,
    session: S,
    cols: u16,
    rows: u16,
)
    ensures
        lookup(before.remove(id).insert(id, session), id) == Some(session),
        cells(cols, rows) == requested_size(Some(cols), Some(rows)),
{
}

/// The report of a restart holds exactly one exit event. It carries the
/// message "terminal restarted" and stands last; what precedes it is an
/// error event, so no data event is among them.
pub proof fn restart_ends_with_exit(id: Seq<char>, kill_failed: bool, status: Option<ExitInfo>)
    ensures
        ({
            let report = restart_report(id, kill_failed, status);
            &&& report.len() >= 1
            &&& report.last() == (EventView::Exit {
                id,
                code: status_code(status),
                signal: status_signal(status),
                message: Some("terminal restarted"@),
            })
            &&& forall|i: int| 0 <= i < report.len() - 1 ==> report[i] is Error
        }),
{
}

/// A session is retired once: after a close, a restart or a finalization
/// took it, a finalization finds nothing of it under the id.
pub proof fn retired_once(tokens: Map<Seq<char>, u64>, id: Seq<char>, token: u64)
    ensures
        !stands(tokens.remove(id), id, token),
{
}

/// The end of an old session's output leaves a later session alone: a token
/// that was handed out before does not name the session that a spawn
/// registers under the same id afterwards.
pub proof fn late_end_leaves_new_session(
    tokens: Map<Seq<char>, u64>,
    issued: u64,
    id: Seq<char>,
    earlier: u64,
)
    requires
        earlier < issued,
    ensures
        !stands(tokens.remove(id).insert(id, issued), id, earlier),
        stands(tokens.remove(id).insert(id, issued), id, issued),
{
}

} // verus!
