use chat_bridge::bridge::Bridge;
use chat_bridge::engine::{EngineInvocation, EngineMode, ProcessOutcome};
use chat_bridge::error::{SendError, StartError};
use chat_bridge::event::{DecodeError, Event, IncomingMessageEvent, ListenerFailure};
use chat_bridge::listener::{ListenerHandle, ListenerState};
use chat_bridge::registry::ConnectionRecord;

/// Stands for the engine: counts the launches and answers each with what it was given.
struct FakeEngine {
    launches: usize,
    last: Option<Vec<String>>,
    success: bool,
    stdout: String,
    stderr: String,
}

impl FakeEngine {
    fn answering(success: bool, stdout: &str, stderr: &str) -> FakeEngine {
        FakeEngine {
            launches: 0,
            last: None,
            success,
            stdout: stdout.to_string(),
            stderr: stderr.to_string(),
        }
    }

    fn run(&mut self, invocation: &EngineInvocation) -> ProcessOutcome {
        self.launches += 1;
        self.last = Some(invocation.argv());
        ProcessOutcome::Exited {
            success: self.success,
            stdout: self.stdout.clone(),
            stderr: self.stderr.clone(),
        }
    }
}

fn start_chat(
    bridge: &mut Bridge,
    engine: &mut FakeEngine,
    peer_ip: &str,
    peer_port: u16,
    my_id: &str,
    now: u64,
) -> Result<u32, StartError> {
    let invocation = bridge.start_chat(peer_ip, peer_port, my_id);
    let outcome = engine.run(&invocation);
    bridge.finish_start_chat(peer_ip, peer_port, outcome, now)
}

fn send_message(
    bridge: &mut Bridge,
    engine: &mut FakeEngine,
    id: u32,
    text: &str,
    now: u64,
) -> Result<(), SendError> {
    let invocation = bridge.send_message(id, text)?;
    let outcome = engine.run(&invocation);
    bridge.finish_send_message(id, outcome, now)
}

fn init_listener(bridge: &mut Bridge, port: u16, process: u32) -> Result<ListenerHandle, StartError> {
    let invocation = bridge.init_listener(port)?;
    assert_eq!(invocation.mode, EngineMode::Listen);
    bridge.finish_init_listener(port, Some(process))
}

fn message(source_id: u32, text: &str, received_at: u64) -> Event {
    Event::Incoming(IncomingMessageEvent { source_id, text: text.to_string(), received_at })
}

fn decode_error(raw_line: &str) -> Event {
    Event::DecodeError(DecodeError { raw_line: raw_line.to_string() })
}

#[test]
fn a_new_bridge_has_nothing() {
    let mut bridge = Bridge::new(16);
    assert_eq!(bridge.pending_events(), 0);
    assert_eq!(bridge.dropped_events(), 0);
    assert_eq!(bridge.decode_errors(), 0);
    assert_eq!(bridge.next_event(), None);
    assert_eq!(bridge.connection(1), None);
    assert!(!bridge.is_usable(1));
    assert_eq!(bridge.listener_state(8000), ListenerState::NotStarted);
}

#[test]
fn send_to_an_id_never_registered_launches_nothing() {
    let mut bridge = Bridge::new(16);
    let mut engine = FakeEngine::answering(true, "", "");
    assert_eq!(
        send_message(&mut bridge, &mut engine, 3, "hi", 1),
        Err(SendError::UnknownOrDeadConnection)
    );
    assert_eq!(engine.launches, 0);
    assert_eq!(bridge.connection(3), None);
}

#[test]
fn send_after_the_connection_died_launches_nothing() {
    let mut bridge = Bridge::new(16);
    let mut engine = FakeEngine::answering(true, "42\n", "");
    assert_eq!(start_chat(&mut bridge, &mut engine, "10.0.0.1", 9000, "me", 1), Ok(42));
    let mut closing = FakeEngine::answering(false, "", "connection closed");
    assert_eq!(
        send_message(&mut bridge, &mut closing, 42, "hi", 2),
        Err(SendError::EngineRejected("connection closed".to_string()))
    );
    assert_eq!(closing.launches, 1);
    let mut willing = FakeEngine::answering(true, "", "");
    assert_eq!(
        send_message(&mut bridge, &mut willing, 42, "hi", 3),
        Err(SendError::UnknownOrDeadConnection)
    );
    assert_eq!(willing.launches, 0);
}

#[test]
fn start_chat_returns_and_registers_the_printed_id() {
    let mut bridge = Bridge::new(16);
    let mut engine = FakeEngine::answering(true, "42\n", "");
    assert_eq!(start_chat(&mut bridge, &mut engine, "10.0.0.1", 9000, "me", 7), Ok(42));
    assert_eq!(engine.launches, 1);
    assert_eq!(
        engine.last,
        Some(vec!["start".to_string(), "10.0.0.1".to_string(), "9000".to_string(), "me".to_string()])
    );
    assert!(bridge.is_usable(42));
    assert_eq!(
        bridge.connection(42),
        Some(ConnectionRecord {
            id: 42,
            peer_address: "10.0.0.1".to_string(),
            peer_port: Some(9000),
            created_at: 7,
            alive: true,
        })
    );
}

#[test]
fn start_chat_on_output_that_is_no_number_is_malformed() {
    let mut bridge = Bridge::new(16);
    let mut engine = FakeEngine::answering(true, "not-a-number", "");
    assert_eq!(
        start_chat(&mut bridge, &mut engine, "10.0.0.1", 9000, "me", 7),
        Err(StartError::MalformedEngineOutput)
    );
    assert_eq!(bridge.connection(42), None);
}

#[test]
fn start_chat_on_a_failed_exit_hands_on_the_diagnostics() {
    let mut bridge = Bridge::new(16);
    let mut engine = FakeEngine::answering(false, "", "no route to host\n");
    assert_eq!(
        start_chat(&mut bridge, &mut engine, "10.0.0.1", 9000, "me", 7),
        Err(StartError::EngineExitFailure("no route to host\n".to_string()))
    );
}

#[test]
fn start_chat_when_the_engine_cannot_be_launched() {
    let mut bridge = Bridge::new(16);
    let _ = bridge.start_chat("10.0.0.1", 9000, "me");
    assert_eq!(
        bridge.finish_start_chat("10.0.0.1", 9000, ProcessOutcome::SpawnFailed, 1),
        Err(StartError::SpawnFailed)
    );
}

#[test]
fn a_sent_message_reaches_the_engine_as_one_argument() {
    let mut bridge = Bridge::new(16);
    let mut engine = FakeEngine::answering(true, "5\n", "");
    assert_eq!(start_chat(&mut bridge, &mut engine, "h", 1, "me", 1), Ok(5));
    let mut sender = FakeEngine::answering(true, "", "");
    assert_eq!(send_message(&mut bridge, &mut sender, 5, "a b:c \"d\"", 2), Ok(()));
    assert_eq!(sender.launches, 1);
    assert_eq!(
        sender.last,
        Some(vec!["send".to_string(), "5".to_string(), "a b:c \"d\"".to_string()])
    );
    assert!(bridge.is_usable(5));
}

#[test]
fn a_rejected_send_without_the_marker_keeps_the_connection() {
    let mut bridge = Bridge::new(16);
    let mut engine = FakeEngine::answering(true, "5\n", "");
    assert_eq!(start_chat(&mut bridge, &mut engine, "h", 1, "me", 1), Ok(5));
    let mut failing = FakeEngine::answering(false, "", "busy");
    assert_eq!(
        send_message(&mut bridge, &mut failing, 5, "x", 2),
        Err(SendError::EngineRejected("busy".to_string()))
    );
    assert!(bridge.is_usable(5));
}

#[test]
fn a_send_when_the_engine_cannot_be_launched() {
    let mut bridge = Bridge::new(16);
    bridge.on_line("5:hello", 1);
    assert!(bridge.send_message(5, "x").is_ok());
    assert_eq!(
        bridge.finish_send_message(5, ProcessOutcome::SpawnFailed, 2),
        Err(SendError::SpawnFailed)
    );
    assert!(bridge.is_usable(5));
}

#[test]
fn init_listener_twice_is_already_running() {
    let mut bridge = Bridge::new(16);
    assert_eq!(init_listener(&mut bridge, 8000, 77), Ok(ListenerHandle { port: 8000, process: 77 }));
    assert_eq!(init_listener(&mut bridge, 8000, 78), Err(StartError::AlreadyRunning));
    assert_eq!(bridge.listener_state(8000), ListenerState::Running(77));
}

#[test]
fn init_listener_after_a_stop_succeeds() {
    let mut bridge = Bridge::new(16);
    let handle = init_listener(&mut bridge, 8000, 77).unwrap();
    assert!(bridge.stop_listener(handle));
    bridge.on_end_of_stream(handle);
    assert_eq!(bridge.listener_state(8000), ListenerState::Stopped);
    assert_eq!(bridge.pending_events(), 0);
    assert_eq!(init_listener(&mut bridge, 8000, 78), Ok(ListenerHandle { port: 8000, process: 78 }));
}

#[test]
fn init_listener_describes_the_launch() {
    let mut bridge = Bridge::new(16);
    assert_eq!(bridge.init_listener(8000), Ok(EngineInvocation::listen(8000)));
    assert_eq!(bridge.listener_state(8000), ListenerState::Starting);
}

#[test]
fn init_listener_when_the_engine_cannot_be_launched() {
    let mut bridge = Bridge::new(16);
    assert!(bridge.init_listener(8000).is_ok());
    assert_eq!(bridge.finish_init_listener(8000, None), Err(StartError::SpawnFailed));
    assert_eq!(bridge.listener_state(8000), ListenerState::Failed(ListenerFailure::SpawnFailed));
    assert_eq!(bridge.pending_events(), 0);
}

#[test]
fn a_listener_that_ends_unasked_is_reported() {
    let mut bridge = Bridge::new(16);
    let handle = init_listener(&mut bridge, 8000, 77).unwrap();
    bridge.on_end_of_stream(handle);
    assert_eq!(bridge.listener_state(8000), ListenerState::Failed(ListenerFailure::EngineExited));
    assert_eq!(
        bridge.next_event(),
        Some(Event::ListenerFailed { reason: ListenerFailure::EngineExited })
    );
    assert_eq!(bridge.next_event(), None);
}

#[test]
fn events_published_before_a_stop_stay_readable() {
    let mut bridge = Bridge::new(16);
    let handle = init_listener(&mut bridge, 8000, 77).unwrap();
    bridge.on_line("1:one", 1);
    bridge.on_line("1:two", 2);
    assert!(bridge.stop_listener(handle));
    bridge.on_end_of_stream(handle);
    assert_eq!(bridge.next_event(), Some(message(1, "one", 1)));
    assert_eq!(bridge.next_event(), Some(message(1, "two", 2)));
    assert_eq!(bridge.next_event(), None);
}

#[test]
fn a_framed_line_becomes_a_message() {
    let mut bridge = Bridge::new(16);
    bridge.on_line("7:hello:world", 3);
    assert_eq!(bridge.next_event(), Some(message(7, "hello:world", 3)));
    assert_eq!(bridge.decode_errors(), 0);
}

#[test]
fn an_inbound_id_is_registered_on_first_sight() {
    let mut bridge = Bridge::new(16);
    bridge.on_line("7:hello", 3);
    assert!(bridge.is_usable(7));
    assert_eq!(
        bridge.connection(7),
        Some(ConnectionRecord {
            id: 7,
            peer_address: String::new(),
            peer_port: None,
            created_at: 3,
            alive: true,
        })
    );
    bridge.on_line("7:again", 4);
    assert_eq!(bridge.connection(7).unwrap().created_at, 3);
}

#[test]
fn an_inbound_message_does_not_touch_a_known_peer() {
    let mut bridge = Bridge::new(16);
    let mut engine = FakeEngine::answering(true, "42\n", "");
    assert_eq!(start_chat(&mut bridge, &mut engine, "10.0.0.1", 9000, "me", 1), Ok(42));
    bridge.on_line("42:hi", 2);
    let record = bridge.connection(42).unwrap();
    assert_eq!(record.peer_address, "10.0.0.1");
    assert_eq!(record.peer_port, Some(9000));
    assert_eq!(record.created_at, 1);
}

#[test]
fn an_inbound_message_does_not_revive_a_dead_connection() {
    let mut bridge = Bridge::new(16);
    bridge.on_line("7:hello", 1);
    assert!(bridge.finish_send_message(7, ProcessOutcome::Exited {
        success: false,
        stdout: String::new(),
        stderr: "closed".to_string(),
    }, 2).is_err());
    bridge.on_line("7:still here", 3);
    assert!(!bridge.is_usable(7));
    assert_eq!(bridge.send_message(7, "x"), Err(SendError::UnknownOrDeadConnection));
}

#[test]
fn malformed_lines_are_counted_reported_and_skipped() {
    let mut bridge = Bridge::new(16);
    bridge.on_line("1:first", 1);
    bridge.on_line("abc", 2);
    bridge.on_line(":hi", 3);
    bridge.on_line("2:second", 4);
    assert_eq!(bridge.decode_errors(), 2);
    assert_eq!(bridge.next_event(), Some(message(1, "first", 1)));
    assert_eq!(bridge.next_event(), Some(decode_error("abc")));
    assert_eq!(bridge.next_event(), Some(decode_error(":hi")));
    assert_eq!(bridge.next_event(), Some(message(2, "second", 4)));
    assert_eq!(bridge.next_event(), None);
    assert!(bridge.is_usable(1));
    assert!(bridge.is_usable(2));
}

#[test]
fn a_malformed_line_registers_nothing() {
    let mut bridge = Bridge::new(16);
    bridge.on_line("x7:hello", 1);
    assert_eq!(bridge.connection(7), None);
}

#[test]
fn flooding_the_bus_drops_the_oldest_and_counts() {
    let mut bridge = Bridge::new(4);
    for n in 0..100u64 {
        bridge.on_line(&format!("1:m{}", n), n);
        assert!(bridge.pending_events() <= 4);
    }
    assert_eq!(bridge.pending_events(), 4);
    assert_eq!(bridge.dropped_events(), 96);
    for n in 96..100u64 {
        assert_eq!(bridge.next_event(), Some(message(1, &format!("m{}", n), n)));
    }
    assert_eq!(bridge.next_event(), None);
}

#[test]
fn listeners_and_connections_do_not_interfere() {
    let mut bridge = Bridge::new(16);
    let handle = init_listener(&mut bridge, 8000, 77).unwrap();
    let mut engine = FakeEngine::answering(true, "42\n", "");
    assert_eq!(start_chat(&mut bridge, &mut engine, "10.0.0.1", 9000, "me", 1), Ok(42));
    bridge.on_end_of_stream(handle);
    assert!(bridge.is_usable(42));
    assert_eq!(bridge.listener_state(8000), ListenerState::Failed(ListenerFailure::EngineExited));
}
