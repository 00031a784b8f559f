//! Session bookkeeping for interactive terminals and periodic engine streams.
//!
//! The crate holds the decisions of a terminal session manager: which shell to
//! launch, which sessions are alive, which events a command or a background
//! worker must deliver, and in what order. Opening pseudo-terminals, running
//! threads and pushing events to a sink are left to the caller, which hands
//! the outcome of each such step back as a plain value.

pub mod engine;
pub mod event;
pub mod reader;
pub mod registry;
pub mod session;
pub mod shell;
pub mod state;
pub mod text;

pub use engine::{start_engine_stream, stop_engine_stream, EngineHeartbeat, EngineStream};
pub use event::{ExitInfo, TerminalEvent};
pub use session::{
    close_terminal, resize_terminal, send_interrupt, spawn_terminal, write_to_terminal,
    SpawnTerminalRequest, SpawnTerminalResponse,
};
pub use shell::{resolve_shell, Platform, ResolveError, ShellLaunch};
pub use state::TerminalState;
