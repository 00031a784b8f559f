use ade_terminal::engine::{
    finish_engine_stream, start_engine_stream, stop_engine_stream, EngineHeartbeat, EngineStep,
    EngineStream, Timestamp, HEARTBEAT_INTERVAL_SECS,
};
use ade_terminal::event::{Flow, TerminalEvent};
use ade_terminal::state::TerminalState;
use base64::engine::general_purpose;
use base64::Engine;

#[test]
fn heartbeat_timestamp_is_non_zero() {
    let heartbeat = EngineHeartbeat::new(1);
    let timestamp = heartbeat.timestamp.secs as f64 + heartbeat.timestamp.nanos as f64 / 1e9;
    assert!(timestamp >= 0.0);
    assert_eq!(heartbeat.seq, 1);
}

#[test]
fn heartbeat_carries_level_and_message() {
    let heartbeat = EngineHeartbeat::new(42);
    assert_eq!(heartbeat.level, "info");
    assert_eq!(heartbeat.message, "engine heartbeat 42");
    assert!(heartbeat.timestamp.nanos < 1_000_000_000);
    assert!(heartbeat.timestamp.secs > 1_000_000_000);
}

#[test]
fn heartbeat_at_a_given_time() {
    let time = Timestamp { secs: 1_700_000_000, nanos: 250_000_000 };
    assert_eq!(
        EngineHeartbeat::at(7, time),
        EngineHeartbeat {
            seq: 7,
            timestamp: time,
            level: "info",
            message: "engine heartbeat 7".to_string(),
        }
    );
    assert_eq!(HEARTBEAT_INTERVAL_SECS, 1);
}

#[test]
fn heartbeats_count_from_one() {
    let mut stream = EngineStream::new("e1".to_string());
    assert_eq!(stream.session_id(), "e1");
    assert_eq!(stream.last_seq(), 0);
    let mut earlier = Timestamp { secs: 0, nanos: 0 };
    for expected in 1..=5u64 {
        let heartbeat = stream.tick(false).unwrap();
        assert_eq!(heartbeat.seq, expected);
        assert_eq!(heartbeat.message, format!("engine heartbeat {expected}"));
        assert!((heartbeat.timestamp.secs, heartbeat.timestamp.nanos) >= (earlier.secs, earlier.nanos));
        earlier = heartbeat.timestamp;
        assert_eq!(stream.last_seq(), expected);
    }
}

#[test]
fn cancelled_stream_makes_no_heartbeat() {
    let mut stream = EngineStream::new("e1".to_string());
    assert_eq!(stream.tick(true), None);
    assert_eq!(stream.last_seq(), 0);
    assert_eq!(stream.tick(false).unwrap().seq, 1);
    assert_eq!(stream.tick(true), None);
    assert_eq!(stream.last_seq(), 1);
}

#[test]
fn second_start_is_a_no_op() {
    let mut state: TerminalState<(), u32> = TerminalState::new();
    let first = start_engine_stream(&mut state, "e1", 1);
    let mut stream = first.unwrap();
    assert_eq!(stream.session_id(), "e1");
    assert_eq!(stream.tick(false).unwrap().seq, 1);
    assert!(start_engine_stream(&mut state, "e1", 2).is_none());
    assert_eq!(state.get_engine("e1"), Some(&1));
    assert_eq!(stream.tick(false).unwrap().seq, 2);
    let other = start_engine_stream(&mut state, "e2", 3).unwrap();
    assert_eq!(other.last_seq(), 0);
    assert_eq!(state.get_engine("e2"), Some(&3));
}

#[test]
fn stop_without_a_stream_does_nothing() {
    let mut state: TerminalState<(), u32> = TerminalState::new();
    assert_eq!(stop_engine_stream(&state, "e1"), None);
    let stream = start_engine_stream(&mut state, "e1", 1).unwrap();
    assert_eq!(stop_engine_stream(&state, "other"), None);
    assert_eq!(stop_engine_stream(&state, "e1"), Some(&1));
    assert!(state.has_engine("e1"));
    finish_engine_stream(&mut state, stream);
    assert!(!state.has_engine("e1"));
    assert_eq!(stop_engine_stream(&state, "e1"), None);
}

#[test]
fn stopped_stream_says_so_last() {
    let stream = EngineStream::new("e1".to_string());
    assert_eq!(
        stream.stopped(),
        TerminalEvent::Exit {
            id: "e1".to_string(),
            code: None,
            signal: None,
            message: Some("engine stream stopped".to_string()),
        }
    );
    assert_eq!(stream.stopped().channel(), "terminal://exit");
}

#[test]
fn serialized_heartbeat_is_framed_as_a_line() {
    let stream = EngineStream::new("e1".to_string());
    match stream.frame(Ok("{\"seq\":1}".to_string())) {
        EngineStep::Deliver(TerminalEvent::Data { id, data }) => {
            assert_eq!(id, "e1");
            assert_eq!(data, "eyJzZXEiOjF9Cg==");
            assert_eq!(general_purpose::STANDARD.decode(data).unwrap(), b"{\"seq\":1}\n");
        }
        _ => panic!("a serialized heartbeat is delivered as data"),
    }
}

#[test]
fn failed_serialization_ends_the_stream() {
    let stream = EngineStream::new("e1".to_string());
    match stream.frame(Err("key must be a string".to_string())) {
        EngineStep::Fail(event) => assert_eq!(
            event,
            TerminalEvent::Error {
                id: Some("e1".to_string()),
                message: "engine stream error: key must be a string".to_string(),
            }
        ),
        EngineStep::Deliver(_) => panic!("a failed serialization is not delivered as data"),
    }
}

#[test]
fn stream_goes_on_only_after_a_delivered_heartbeat() {
    let stream = EngineStream::new("e1".to_string());
    let beat = stream.frame(Ok("{}".to_string()));
    assert_eq!(beat.after_delivery(true), Flow::GoOn);
    assert_eq!(beat.after_delivery(false), Flow::Stop);
    let failed = stream.frame(Err("bad".to_string()));
    assert_eq!(failed.after_delivery(true), Flow::Stop);
    assert_eq!(failed.after_delivery(false), Flow::Stop);
}

#[test]
fn second_start_does_not_restart_the_numbering() {
    let mut state: TerminalState<(), u32> = TerminalState::new();
    let mut stream = start_engine_stream(&mut state, "e1", 1).unwrap();
    for expected in 1..=3u64 {
        assert_eq!(stream.tick(false).unwrap().seq, expected);
    }
    assert!(start_engine_stream(&mut state, "e1", 2).is_none());
    for expected in 4..=6u64 {
        assert_eq!(stream.tick(false).unwrap().seq, expected);
    }
}
