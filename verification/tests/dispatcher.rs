use chat_bridge::dispatcher::{plan_send, settle_send, stderr_reports_closed};
use chat_bridge::engine::{EngineInvocation, ProcessOutcome};
use chat_bridge::error::SendError;
use chat_bridge::registry::Registry;

fn exited(success: bool, stderr: &str) -> ProcessOutcome {
    ProcessOutcome::Exited { success, stdout: String::new(), stderr: stderr.to_string() }
}

#[test]
fn a_usable_connection_gets_a_launch() {
    let mut registry = Registry::new();
    registry.register(42, None, None, 1);
    assert_eq!(plan_send(&registry, 42, "hello"), Ok(EngineInvocation::send(42, "hello")));
}

#[test]
fn an_unknown_connection_gets_none() {
    let registry = Registry::new();
    assert_eq!(plan_send(&registry, 42, "hello"), Err(SendError::UnknownOrDeadConnection));
}

#[test]
fn a_dead_connection_gets_none() {
    let mut registry = Registry::new();
    registry.register(42, None, None, 1);
    registry.mark_dead(42, 2);
    assert_eq!(plan_send(&registry, 42, "hello"), Err(SendError::UnknownOrDeadConnection));
}

#[test]
fn success_is_unit_and_changes_nothing() {
    let mut registry = Registry::new();
    registry.register(42, None, None, 1);
    assert_eq!(settle_send(&mut registry, 42, exited(true, ""), 2), Ok(()));
    assert!(registry.is_usable(42));
}

#[test]
fn success_ignores_what_was_written_to_standard_error() {
    let mut registry = Registry::new();
    registry.register(42, None, None, 1);
    assert_eq!(settle_send(&mut registry, 42, exited(true, "warning: closed soon"), 2), Ok(()));
    assert!(registry.is_usable(42));
}

#[test]
fn failure_hands_on_the_diagnostics() {
    let mut registry = Registry::new();
    registry.register(42, None, None, 1);
    assert_eq!(
        settle_send(&mut registry, 42, exited(false, "peer unreachable\n"), 2),
        Err(SendError::EngineRejected("peer unreachable\n".to_string()))
    );
    assert!(registry.is_usable(42));
}

#[test]
fn failure_with_the_marker_marks_the_connection_dead() {
    let mut registry = Registry::new();
    registry.register(42, Some("10.0.0.1"), Some(9000), 1);
    assert_eq!(
        settle_send(&mut registry, 42, exited(false, "error: connection closed by peer"), 2),
        Err(SendError::EngineRejected("error: connection closed by peer".to_string()))
    );
    assert!(!registry.is_usable(42));
    assert!(registry.contains(42));
    assert_eq!(registry.get(42).unwrap().created_at, 1);
    assert_eq!(plan_send(&registry, 42, "again"), Err(SendError::UnknownOrDeadConnection));
}

#[test]
fn failure_with_the_marker_on_an_unknown_connection_remembers_it() {
    let mut registry = Registry::new();
    assert!(settle_send(&mut registry, 9, exited(false, "closed"), 5).is_err());
    assert!(registry.contains(9));
    assert!(!registry.is_usable(9));
    assert_eq!(registry.get(9).unwrap().created_at, 5);
}

#[test]
fn a_send_that_could_not_be_launched_is_reported() {
    let mut registry = Registry::new();
    registry.register(42, None, None, 1);
    assert_eq!(
        settle_send(&mut registry, 42, ProcessOutcome::SpawnFailed, 2),
        Err(SendError::SpawnFailed)
    );
    assert!(registry.is_usable(42));
}

#[test]
fn the_marker_is_the_word_closed_in_lower_case() {
    assert!(stderr_reports_closed("closed"));
    assert!(stderr_reports_closed("socket closed\n"));
    assert!(stderr_reports_closed("BrokenPipeError: connection was closed."));
    assert!(stderr_reports_closed("unclosedness"));
    assert!(!stderr_reports_closed(""));
    assert!(!stderr_reports_closed("Closed"));
    assert!(!stderr_reports_closed("CLOSED"));
    assert!(!stderr_reports_closed("close"));
    assert!(!stderr_reports_closed("timed out"));
}
