use chat_bridge::engine::{EngineInvocation, ProcessOutcome};
use chat_bridge::error::StartError;
use chat_bridge::initiator::{plan_start, read_printed_id, settle_start};
use chat_bridge::registry::{ConnectionRecord, Registry};

fn exited(success: bool, stdout: &str, stderr: &str) -> ProcessOutcome {
    ProcessOutcome::Exited { success, stdout: stdout.to_string(), stderr: stderr.to_string() }
}

#[test]
fn the_launch_names_the_peer_and_the_local_id() {
    assert_eq!(
        plan_start("10.0.0.1", 9000, "alice"),
        EngineInvocation::start("10.0.0.1", 9000, "alice")
    );
    assert_eq!(
        plan_start("10.0.0.1", 9000, "alice").argv(),
        vec!["start".to_string(), "10.0.0.1".to_string(), "9000".to_string(), "alice".to_string()]
    );
}

#[test]
fn the_printed_id_is_read_without_surrounding_whitespace() {
    assert_eq!(read_printed_id("42\n"), Some(42));
    assert_eq!(read_printed_id("42"), Some(42));
    assert_eq!(read_printed_id("  42\r\n"), Some(42));
    assert_eq!(read_printed_id("\n\n0\n\n"), Some(0));
    assert_eq!(read_printed_id("4294967295\n"), Some(u32::MAX));
}

#[test]
fn anything_else_is_no_id() {
    assert_eq!(read_printed_id("not-a-number"), None);
    assert_eq!(read_printed_id(""), None);
    assert_eq!(read_printed_id("\n"), None);
    assert_eq!(read_printed_id("4 2\n"), None);
    assert_eq!(read_printed_id("42\n43\n"), None);
    assert_eq!(read_printed_id("id: 42\n"), None);
    assert_eq!(read_printed_id("-1\n"), None);
    assert_eq!(read_printed_id("4294967296\n"), None);
    assert_eq!(read_printed_id("42.0\n"), None);
}

#[test]
fn reading_agrees_with_trimming_and_parsing() {
    let samples = ["42\n", " 7 ", "", "x", "+3\n", "\u{a0}5\u{a0}", "1\n2", "\t99999999999\t"];
    for stdout in samples {
        assert_eq!(read_printed_id(stdout), stdout.trim().parse::<u32>().ok(), "on {:?}", stdout);
    }
}

#[test]
fn success_registers_the_connection() {
    let mut registry = Registry::new();
    assert_eq!(
        settle_start(&mut registry, "10.0.0.1", 9000, exited(true, "42\n", ""), 5),
        Ok(42)
    );
    assert!(registry.is_usable(42));
    assert_eq!(
        registry.get(42),
        Some(ConnectionRecord {
            id: 42,
            peer_address: "10.0.0.1".to_string(),
            peer_port: Some(9000),
            created_at: 5,
            alive: true,
        })
    );
}

#[test]
fn malformed_output_is_an_error_and_registers_nothing() {
    let mut registry = Registry::new();
    assert_eq!(
        settle_start(&mut registry, "10.0.0.1", 9000, exited(true, "not-a-number", ""), 5),
        Err(StartError::MalformedEngineOutput)
    );
    assert_eq!(registry.len(), 0);
}

#[test]
fn empty_output_is_malformed() {
    let mut registry = Registry::new();
    assert_eq!(
        settle_start(&mut registry, "10.0.0.1", 9000, exited(true, "", ""), 5),
        Err(StartError::MalformedEngineOutput)
    );
}

#[test]
fn a_failed_exit_hands_on_the_diagnostics() {
    let mut registry = Registry::new();
    assert_eq!(
        settle_start(&mut registry, "10.0.0.1", 9000, exited(false, "42\n", "refused\n"), 5),
        Err(StartError::EngineExitFailure("refused\n".to_string()))
    );
    assert_eq!(registry.len(), 0);
}

#[test]
fn a_start_that_could_not_be_launched_is_reported() {
    let mut registry = Registry::new();
    assert_eq!(
        settle_start(&mut registry, "10.0.0.1", 9000, ProcessOutcome::SpawnFailed, 5),
        Err(StartError::SpawnFailed)
    );
    assert_eq!(registry.len(), 0);
}

#[test]
fn an_id_seen_before_gets_its_peer_filled_in() {
    let mut registry = Registry::new();
    registry.register(42, None, None, 1);
    assert_eq!(
        settle_start(&mut registry, "10.0.0.1", 9000, exited(true, "42\n", ""), 5),
        Ok(42)
    );
    let record = registry.get(42).unwrap();
    assert_eq!(record.peer_address, "10.0.0.1");
    assert_eq!(record.peer_port, Some(9000));
    assert_eq!(record.created_at, 1);
    assert!(record.alive);
}

#[test]
fn a_dead_id_is_not_revived_by_a_start() {
    let mut registry = Registry::new();
    registry.mark_dead(42, 1);
    assert_eq!(
        settle_start(&mut registry, "10.0.0.1", 9000, exited(true, "42\n", ""), 5),
        Ok(42)
    );
    assert!(!registry.is_usable(42));
}
