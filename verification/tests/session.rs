use ade_terminal::event::{
    can_encode, data_event, error_event, exit_event, ExitInfo, Flow, TerminalEvent,
};
use ade_terminal::reader::{reader_step, ReaderAction, READ_BUFFER_SIZE};
use ade_terminal::registry::Registry;
use ade_terminal::session::{
    close_events, close_terminal, command_reply, finalize_terminal, not_found, register_terminal,
    resize_terminal, restart_events, send_interrupt, spawn_failed, spawn_terminal,
    write_to_terminal, PtySize, SpawnError, SpawnTerminalRequest, SpawnTerminalResponse,
    DEFAULT_COLS, DEFAULT_ROWS, INTERRUPT_BYTE,
};
use ade_terminal::shell::{Platform, ResolveError, ShellLaunch};
use ade_terminal::state::TerminalState;
use anyhow::Context;
use base64::engine::general_purpose;
use base64::Engine;

fn request(id: &str, cols: Option<u16>, rows: Option<u16>, use_wsl: Option<bool>) -> SpawnTerminalRequest {
    SpawnTerminalRequest { id: id.to_string(), cols, rows, use_wsl }
}

fn launch(label: &str) -> ShellLaunch {
    ShellLaunch {
        program: format!("/bin/{label}"),
        args: vec![],
        label: label.to_string(),
        supports_wsl: false,
    }
}

fn exit(id: &str, code: Option<i32>, signal: Option<&str>, message: &str) -> TerminalEvent {
    TerminalEvent::Exit {
        id: id.to_string(),
        code,
        signal: signal.map(|name| name.to_string()),
        message: Some(message.to_string()),
    }
}

fn error(id: &str, message: &str) -> TerminalEvent {
    TerminalEvent::Error { id: Some(id.to_string()), message: message.to_string() }
}

#[test]
fn data_event_encodes_in_standard_base64() {
    assert_eq!(
        data_event("t1", b"hello"),
        TerminalEvent::Data { id: "t1".to_string(), data: "aGVsbG8=".to_string() }
    );
    assert_eq!(
        data_event("t1", &[0xff, 0xfe, 0x00]),
        TerminalEvent::Data { id: "t1".to_string(), data: "//4A".to_string() }
    );
    assert_eq!(
        data_event("t1", b""),
        TerminalEvent::Data { id: "t1".to_string(), data: String::new() }
    );
}

#[test]
fn data_event_decodes_to_the_bytes_read() {
    let bytes: Vec<u8> = (0u8..=255).collect();
    match data_event("echo", &bytes) {
        TerminalEvent::Data { id, data } => {
            assert_eq!(id, "echo");
            assert_eq!(general_purpose::STANDARD.decode(data).unwrap(), bytes);
        }
        other => panic!("not a data event: {other:?}"),
    }
}

#[test]
fn can_encode_knows_the_limit() {
    assert!(can_encode(0));
    assert!(can_encode(READ_BUFFER_SIZE));
    assert!(can_encode((usize::MAX - 4) / 4 * 3 + 2));
    assert!(!can_encode((usize::MAX - 4) / 4 * 3 + 3));
    assert!(!can_encode(usize::MAX));
}

#[test]
fn exit_event_carries_the_status() {
    let status = ExitInfo { code: Some(2), signal: Some("Terminated".to_string()) };
    assert_eq!(
        exit_event("t1", Some(status), Some("process exited".to_string())),
        exit("t1", Some(2), Some("Terminated"), "process exited")
    );
    assert_eq!(
        exit_event("t1", None, None),
        TerminalEvent::Exit { id: "t1".to_string(), code: None, signal: None, message: None }
    );
}

#[test]
fn error_event_carries_the_id_where_known() {
    assert_eq!(error_event(Some("t1".to_string()), "boom".to_string()), error("t1", "boom"));
    assert_eq!(
        error_event(None, "boom".to_string()),
        TerminalEvent::Error { id: None, message: "boom".to_string() }
    );
}

#[test]
fn events_name_their_channel() {
    assert_eq!(data_event("t", b"x").channel(), "terminal://data");
    assert_eq!(exit_event("t", None, None).channel(), "terminal://exit");
    assert_eq!(error_event(None, String::new()).channel(), "terminal://error");
}

#[test]
fn registry_holds_one_entry_per_id() {
    let mut registry: Registry<u32> = Registry::new();
    assert!(!registry.contains("a"));
    assert_eq!(registry.insert("a".to_string(), 1), None);
    assert_eq!(registry.insert("b".to_string(), 2), None);
    assert_eq!(registry.insert("a".to_string(), 3), Some(1));
    assert!(registry.contains("a"));
    assert_eq!(registry.get("a"), Some(&3));
    assert_eq!(registry.get("b"), Some(&2));
    assert_eq!(registry.get("c"), None);
    assert_eq!(registry.take("a"), Some(3));
    assert_eq!(registry.take("a"), None);
    assert!(!registry.contains("a"));
    assert_eq!(registry.get("b"), Some(&2));
}

#[test]
fn state_keeps_terminals_and_engines_apart() {
    let mut state: TerminalState<u32, &str> = TerminalState::default();
    state.insert_terminal("x".to_string(), 10);
    assert!(!state.has_engine("x"));
    state.insert_engine("x".to_string(), "engine");
    assert!(state.has_engine("x"));
    assert_eq!(state.get_terminal("x"), Some(&10));
    assert_eq!(state.get_engine("x"), Some(&"engine"));
    assert_eq!(state.take_terminal("x"), Some(10));
    assert_eq!(state.get_terminal("x"), None);
    assert!(state.has_engine("x"));
    assert_eq!(state.take_engine("x"), Some("engine"));
    assert_eq!(state.take_engine("x"), None);
    assert!(!state.has_engine("x"));
}

#[test]
fn insert_terminal_replaces_the_entry() {
    let mut state: TerminalState<u32, ()> = TerminalState::new();
    state.insert_terminal("x".to_string(), 1);
    state.insert_terminal("x".to_string(), 2);
    assert_eq!(state.take_terminal("x"), Some(2));
    assert_eq!(state.take_terminal("x"), None);
}

#[test]
fn spawn_defaults_to_eighty_by_twenty_four() {
    let mut state: TerminalState<u32, ()> = TerminalState::new();
    let plan = spawn_terminal(&mut state, &request("t1", None, None, None));
    assert_eq!(plan.previous, None);
    assert_eq!(plan.size, PtySize { rows: 24, cols: 80, pixel_width: 0, pixel_height: 0 });
    assert!(!plan.use_wsl);
    assert_eq!((DEFAULT_COLS, DEFAULT_ROWS), (80, 24));
}

#[test]
fn spawn_takes_the_requested_size() {
    let mut state: TerminalState<u32, ()> = TerminalState::new();
    let plan = spawn_terminal(&mut state, &request("t1", Some(132), Some(43), Some(true)));
    assert_eq!(plan.size, PtySize { rows: 43, cols: 132, pixel_width: 0, pixel_height: 0 });
    assert!(plan.use_wsl);
    let plan = spawn_terminal(&mut state, &request("t1", Some(1), None, Some(false)));
    assert_eq!(plan.size, PtySize { rows: 24, cols: 1, pixel_width: 0, pixel_height: 0 });
    assert!(!plan.use_wsl);
}

#[test]
fn spawn_then_resize_with_the_same_size_is_accepted() {
    let mut state: TerminalState<u32, ()> = TerminalState::new();
    let plan = spawn_terminal(&mut state, &request("t1", Some(100), Some(40), None));
    let registered = register_terminal(&mut state, "t1".to_string(), 5, launch("zsh"));
    assert_eq!(
        registered.response,
        SpawnTerminalResponse { shell_label: "zsh".to_string(), supports_wsl: false }
    );
    let order = resize_terminal(&state, "t1", 100, 40).unwrap();
    assert_eq!(*order.session, 5);
    assert_eq!(order.size, plan.size);
    assert_eq!(order.failure, "resize failed: failed to resize pty");
}

#[test]
fn respawn_replaces_the_session() {
    let mut state: TerminalState<u32, ()> = TerminalState::new();
    let first = spawn_terminal(&mut state, &request("t1", None, None, None));
    assert_eq!(first.previous, None);
    register_terminal(&mut state, "t1".to_string(), 1, launch("sh"));
    let second = spawn_terminal(&mut state, &request("t1", None, None, None));
    assert_eq!(second.previous, Some(1));
    assert_eq!(state.get_terminal("t1"), None);
    register_terminal(&mut state, "t1".to_string(), 2, launch("sh"));
    assert_eq!(state.get_terminal("t1"), Some(&2));
    assert_eq!(close_terminal(&mut state, "t1"), Ok(2));
    assert_eq!(close_terminal(&mut state, "t1"), Err("terminal t1 not found".to_string()));
}

#[test]
fn restart_reports_one_exit_last() {
    assert_eq!(
        restart_events("t1", false, Some(ExitInfo { code: Some(0), signal: None })),
        vec![exit("t1", Some(0), None, "terminal restarted")]
    );
    assert_eq!(
        restart_events("t1", true, None),
        vec![
            error("t1", "failed to stop existing terminal: failed to kill process"),
            exit("t1", None, None, "terminal restarted"),
        ]
    );
}

#[test]
fn close_reports_kill_failure_then_exit() {
    let status = ExitInfo { code: Some(1), signal: Some("Killed".to_string()) };
    assert_eq!(
        close_events("t1", false, Some(status.clone())),
        vec![exit("t1", Some(1), Some("Killed"), "terminal closed")]
    );
    assert_eq!(
        close_events("t1", true, Some(status)),
        vec![
            error("t1", "failed to kill terminal: failed to kill process"),
            exit("t1", Some(1), Some("Killed"), "terminal closed"),
        ]
    );
}

#[test]
fn commands_for_an_unknown_id_are_refused() {
    let mut state: TerminalState<u32, ()> = TerminalState::new();
    register_terminal(&mut state, "known".to_string(), 1, launch("sh"));
    let refusal = "terminal ghost not found".to_string();
    assert_eq!(not_found("ghost"), refusal);
    assert_eq!(write_to_terminal(&state, "ghost", vec![1, 2]).err(), Some(refusal.clone()));
    assert_eq!(resize_terminal(&state, "ghost", 80, 24).err(), Some(refusal.clone()));
    assert_eq!(send_interrupt(&state, "ghost").err(), Some(refusal.clone()));
    assert_eq!(close_terminal(&mut state, "ghost"), Err(refusal));
    assert_eq!(finalize_terminal(&mut state, "ghost", 0), None);
    assert_eq!(state.get_terminal("known"), Some(&1));
}

#[test]
fn write_forwards_the_bytes_verbatim() {
    let mut state: TerminalState<u32, ()> = TerminalState::new();
    register_terminal(&mut state, "t1".to_string(), 9, launch("sh"));
    let order = write_to_terminal(&state, "t1", vec![0, 255, 10, 13]).unwrap();
    assert_eq!(*order.session, 9);
    assert_eq!(order.bytes, vec![0, 255, 10, 13]);
    assert_eq!(order.failure, "write failed: failed to write to terminal");
}

#[test]
fn interrupt_writes_the_etx_byte() {
    let mut state: TerminalState<u32, ()> = TerminalState::new();
    register_terminal(&mut state, "t1".to_string(), 9, launch("sh"));
    let order = send_interrupt(&state, "t1").unwrap();
    assert_eq!(*order.session, 9);
    assert_eq!(order.bytes, vec![0x03]);
    assert_eq!(INTERRUPT_BYTE, 0x03);
    assert_eq!(order.failure, "interrupt failed: failed to write to terminal");
}

#[test]
fn resize_keeps_pixel_dimensions_zero() {
    let mut state: TerminalState<u32, ()> = TerminalState::new();
    register_terminal(&mut state, "t1".to_string(), 9, launch("sh"));
    let order = resize_terminal(&state, "t1", 200, 50).unwrap();
    assert_eq!(order.size, PtySize { rows: 50, cols: 200, pixel_width: 0, pixel_height: 0 });
    let order = resize_terminal(&state, "t1", 0, u16::MAX).unwrap();
    assert_eq!(order.size, PtySize { rows: u16::MAX, cols: 0, pixel_width: 0, pixel_height: 0 });
}

#[test]
fn close_and_finalize_exclude_each_other() {
    let mut state: TerminalState<u32, ()> = TerminalState::new();
    let a = register_terminal(&mut state, "a".to_string(), 1, launch("sh")).token;
    let b = register_terminal(&mut state, "b".to_string(), 2, launch("sh")).token;
    assert_eq!(close_terminal(&mut state, "a"), Ok(1));
    assert_eq!(finalize_terminal(&mut state, "a", a), None);
    assert_eq!(finalize_terminal(&mut state, "b", b), Some(2));
    assert_eq!(finalize_terminal(&mut state, "b", b), None);
    assert_eq!(close_terminal(&mut state, "b"), Err("terminal b not found".to_string()));
}

#[test]
fn spawn_errors_render_their_text() {
    assert_eq!(SpawnError::OpenPty.message(), "failed to open pty");
    assert_eq!(SpawnError::SpawnShell.message(), "failed to spawn shell process");
    assert_eq!(SpawnError::CloneReader.message(), "failed to clone pty reader");
    assert_eq!(SpawnError::TakeWriter.message(), "failed to acquire pty writer");
    assert_eq!(
        SpawnError::Resolve(ResolveError::NoAlternateShell).message(),
        "WSL requested but no wsl executable was found"
    );
    assert_eq!(
        SpawnError::Resolve(ResolveError::NoShellFound { platform: Platform::Posix }).message(),
        "No suitable shell found (checked SHELL, zsh, bash, sh)."
    );
}

#[test]
fn failed_spawn_is_reported_twice() {
    let failure = spawn_failed("t1", SpawnError::OpenPty);
    assert_eq!(failure.message, "failed to open pty");
    assert_eq!(failure.event, error("t1", "failed to open pty"));
}

#[test]
fn reader_forwards_a_chunk() {
    match reader_step("t1", Ok(&b"ls\r\n"[..])) {
        ReaderAction::Deliver(event) => assert_eq!(
            event,
            TerminalEvent::Data { id: "t1".to_string(), data: "bHMNCg==".to_string() }
        ),
        ReaderAction::Finish { .. } => panic!("a chunk does not end the loop"),
    }
}

#[test]
fn reader_ends_on_an_empty_read() {
    match reader_step("t1", Ok(&[][..])) {
        ReaderAction::Finish { error, message } => {
            assert_eq!(error, None);
            assert_eq!(message, "process exited");
        }
        ReaderAction::Deliver(_) => panic!("an empty read is the end of the output"),
    }
}

#[test]
fn reader_reports_a_failed_read() {
    match reader_step("t1", Err("Input/output error (os error 5)".to_string())) {
        ReaderAction::Finish { error: reported, message } => {
            let text = "Failed to read terminal output: Input/output error (os error 5)";
            assert_eq!(message, text);
            assert_eq!(reported, Some(error("t1", text)));
        }
        ReaderAction::Deliver(_) => panic!("a failed read ends the loop"),
    }
}

#[test]
fn process_exit_gives_one_exit_event() {
    let mut state: TerminalState<u32, ()> = TerminalState::new();
    let token = register_terminal(&mut state, "t1".to_string(), 4, launch("sh")).token;
    let action = reader_step("t1", Ok(&[][..]));
    assert_eq!(action.after_delivery(true), Flow::Stop);
    let message = match action {
        ReaderAction::Finish { message, .. } => message,
        ReaderAction::Deliver(_) => panic!("an empty read is the end of the output"),
    };
    assert_eq!(finalize_terminal(&mut state, "t1", token), Some(4));
    let status = ExitInfo { code: Some(0), signal: None };
    assert_eq!(
        exit_event("t1", Some(status), Some(message)),
        exit("t1", Some(0), None, "process exited")
    );
    assert_eq!(finalize_terminal(&mut state, "t1", token), None);
}

#[test]
fn exit_info_carries_codes_that_fit() {
    assert_eq!(ExitInfo::exited(0, None), ExitInfo { code: Some(0), signal: None });
    assert_eq!(
        ExitInfo::exited(130, Some("Interrupt".to_string())),
        ExitInfo { code: Some(130), signal: Some("Interrupt".to_string()) }
    );
    assert_eq!(ExitInfo::exited(i32::MAX as u32, None).code, Some(i32::MAX));
    assert_eq!(ExitInfo::exited(i32::MAX as u32 + 1, None).code, None);
    assert_eq!(ExitInfo::exited(u32::MAX, None).code, None);
}

fn wrapped(context: &'static str) -> anyhow::Error {
    let failed: Result<(), std::io::Error> =
        Err(std::io::Error::new(std::io::ErrorKind::Other, "device gone"));
    failed.context(context).unwrap_err()
}

#[test]
fn failure_texts_show_the_outermost_context() {
    let mut state: TerminalState<u32, ()> = TerminalState::new();
    register_terminal(&mut state, "t1".to_string(), 9, launch("sh"));
    let err = wrapped("failed to write to terminal");
    assert_eq!(
        write_to_terminal(&state, "t1", vec![]).unwrap().failure,
        format!("write failed: {err}")
    );
    assert_eq!(send_interrupt(&state, "t1").unwrap().failure, format!("interrupt failed: {err}"));
    let err = wrapped("failed to resize pty");
    assert_eq!(
        resize_terminal(&state, "t1", 1, 1).unwrap().failure,
        format!("resize failed: {err}")
    );
    let err = wrapped("failed to kill process");
    assert_eq!(
        close_events("t1", true, None)[0],
        error("t1", &format!("failed to kill terminal: {err}"))
    );
    assert_eq!(
        restart_events("t1", true, None)[0],
        error("t1", &format!("failed to stop existing terminal: {err}"))
    );
    let err = wrapped("failed to open pty");
    assert_eq!(SpawnError::OpenPty.message(), err.to_string());
}

#[test]
fn tokens_count_the_registered_terminals() {
    let mut state: TerminalState<u32, ()> = TerminalState::new();
    assert_eq!(state.tokens_issued(), 0);
    assert_eq!(state.token_of("a"), None);
    assert_eq!(state.insert_terminal("a".to_string(), 1), 0);
    assert_eq!(state.insert_terminal("b".to_string(), 2), 1);
    assert_eq!(state.insert_terminal("a".to_string(), 3), 2);
    assert_eq!(state.tokens_issued(), 3);
    assert_eq!(state.token_of("a"), Some(2));
    assert_eq!(state.token_of("b"), Some(1));
    assert_eq!(register_terminal(&mut state, "c".to_string(), 4, launch("sh")).token, 3);
    assert_eq!(state.take_terminal("a"), Some(3));
    assert_eq!(state.token_of("a"), None);
    assert_eq!(state.tokens_issued(), 4);
}

#[test]
fn take_session_takes_only_the_named_session() {
    let mut state: TerminalState<u32, ()> = TerminalState::new();
    let first = state.insert_terminal("a".to_string(), 1);
    let second = state.insert_terminal("a".to_string(), 2);
    assert_ne!(first, second);
    assert_eq!(state.take_session("a", first), None);
    assert_eq!(state.get_terminal("a"), Some(&2));
    assert_eq!(state.take_session("b", second), None);
    assert_eq!(state.take_session("a", second), Some(2));
    assert_eq!(state.take_session("a", second), None);
    assert_eq!(state.get_terminal("a"), None);
}

#[test]
fn late_end_of_an_old_session_leaves_the_new_one() {
    let mut state: TerminalState<u32, ()> = TerminalState::new();
    let old = register_terminal(&mut state, "t1".to_string(), 1, launch("sh")).token;
    let plan = spawn_terminal(&mut state, &request("t1", None, None, None));
    assert_eq!(plan.previous, Some(1));
    assert_eq!(finalize_terminal(&mut state, "t1", old), None);
    let new = register_terminal(&mut state, "t1".to_string(), 2, launch("sh")).token;
    assert_ne!(old, new);
    assert_eq!(finalize_terminal(&mut state, "t1", old), None);
    assert_eq!(state.get_terminal("t1"), Some(&2));
    assert_eq!(finalize_terminal(&mut state, "t1", new), Some(2));
    assert_eq!(state.get_terminal("t1"), None);
}

#[test]
fn failed_command_is_reported_twice() {
    let mut state: TerminalState<u32, ()> = TerminalState::new();
    register_terminal(&mut state, "t1".to_string(), 9, launch("sh"));
    let failure = write_to_terminal(&state, "t1", vec![1]).unwrap().failure;
    let reply = command_reply("t1", false, failure);
    assert_eq!(reply.result, Err("write failed: failed to write to terminal".to_string()));
    assert_eq!(reply.event, Some(error("t1", "write failed: failed to write to terminal")));
    assert_eq!(state.get_terminal("t1"), Some(&9));
    let failure = resize_terminal(&state, "t1", 1, 1).unwrap().failure;
    let reply = command_reply("t1", false, failure);
    assert_eq!(reply.result, Err("resize failed: failed to resize pty".to_string()));
    assert_eq!(reply.event, Some(error("t1", "resize failed: failed to resize pty")));
    let failure = send_interrupt(&state, "t1").unwrap().failure;
    let reply = command_reply("t1", false, failure);
    assert_eq!(reply.event, Some(error("t1", "interrupt failed: failed to write to terminal")));
}

#[test]
fn successful_command_reports_nothing() {
    let reply = command_reply("t1", true, "write failed: failed to write to terminal".to_string());
    assert_eq!(reply.result, Ok(()));
    assert_eq!(reply.event, None);
}

#[test]
fn reader_goes_on_only_after_a_delivered_chunk() {
    let chunk = reader_step("t1", Ok(&b"x"[..]));
    assert_eq!(chunk.after_delivery(true), Flow::GoOn);
    assert_eq!(chunk.after_delivery(false), Flow::Stop);
    let end = reader_step("t1", Ok(&[][..]));
    assert_eq!(end.after_delivery(true), Flow::Stop);
    assert_eq!(end.after_delivery(false), Flow::Stop);
    let failed = reader_step("t1", Err("gone".to_string()));
    assert_eq!(failed.after_delivery(true), Flow::Stop);
    assert_eq!(failed.after_delivery(false), Flow::Stop);
}
