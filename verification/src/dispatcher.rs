//! The outbound dispatcher: whether a message may be sent on a connection,
//! how the engine is launched to send it, and what the engine's exit means.

use vstd::prelude::*;
use crate::engine::{EngineInvocation, InvocationView, ProcessOutcome};
use crate::error::SendError;
use crate::registry::{
    applied, lemma_dead_forever, lemma_unmentioned_unknown, marked_dead, usable, ConnectionId,
    Records, Registry, RegistryOp,
};
use crate::text::{chars_of, contains, contains_run};

verus! {

/// The word in the engine's diagnostics that tells that the connection is closed.
pub open spec fn closed_marker() -> Seq<char> {
    "closed"@
}

/// Whether what the engine wrote to standard error tells that the
/// connection is closed: the marker occurs in it, in lower case.
pub open spec fn reports_closed(stderr: Seq<char>) -> bool {
    contains_run(stderr, closed_marker())
}

/// What a finished launch in send mode means for the caller.
pub open spec fn send_result(outcome: ProcessOutcome) -> Result<(), SendError> {
    match outcome {
        ProcessOutcome::SpawnFailed => Err(SendError::SpawnFailed),
        ProcessOutcome::Exited { success, stdout, stderr } => if success {
            Ok(())
        } else {
            Err(SendError::EngineRejected(stderr))
        },
    }
}

/// Whether a finished launch in send mode shows the connection to be dead:
/// the engine failed and reported the connection closed.
pub open spec fn shows_dead(outcome: ProcessOutcome) -> bool {
    match outcome {
        ProcessOutcome::SpawnFailed => false,
        ProcessOutcome::Exited { success, stdout, stderr } => !success && reports_closed(stderr@),
    }
}

/// The records after a launch that sent on `id` has finished.
pub open spec fn records_after_send(
    records: Records,
    id: ConnectionId,
    outcome: ProcessOutcome,
    now: u64,
) -> Records {
    if shows_dead(outcome) {
        marked_dead(records, id, now)
    } else {
        records
    }
}

/// What is decided when `text` is to be sent on `id`: the launch to
/// perform if the connection is usable, and else an error, with no launch.
pub open spec fn send_plan(records: Records, id: ConnectionId, text: Seq<char>) -> Result<
    InvocationView,
    SendError,
> {
    if usable(records, id) {
        Ok(InvocationView::send(id, text))
    } else {
        Err(SendError::UnknownOrDeadConnection)
    }
}

/// Sending on an identifier that no change to the registry was about is
/// refused without a launch.
pub proof fn lemma_unknown_refused(ops: Seq<RegistryOp>, id: ConnectionId, text: Seq<char>)
    requires
        forall|i: int| 0 <= i < ops.len() ==> (#[trigger] ops[i]).id() != id,
    ensures
        send_plan(applied(Map::empty(), ops), id, text) == Err::<InvocationView, SendError>(
            SendError::UnknownOrDeadConnection,
        ),
{
    lemma_unmentioned_unknown(ops, id);
}

/// Once an identifier was marked dead, sending on it is refused without a
/// launch, whatever was done to the registry since.
pub proof fn lemma_dead_refused(
    records: Records,
    id: ConnectionId,
    now: u64,
    ops: Seq<RegistryOp>,
    text: Seq<char>,
)
    ensures
        send_plan(applied(marked_dead(records, id, now), ops), id, text) == Err::<
            InvocationView,
            SendError,
        >(SendError::UnknownOrDeadConnection),
{
    lemma_dead_forever(records, id, now, ops);
}

/// Decides whether `text` may be sent on `id`. If the identifier is not on
/// record or its connection is dead, the answer is an error and no launch:
/// the engine is not to be run. Otherwise the answer is the launch to perform.
pub fn plan_send(registry: &Registry, id: ConnectionId, text: &str) -> (r: Result<
    EngineInvocation,
    SendError,
>)
    ensures
        match r {
            Ok(invocation) => send_plan(registry@, id, text@) == Ok::<InvocationView, SendError>(
                invocation@,
            ),
            Err(error) => send_plan(registry@, id, text@) == Err::<InvocationView, SendError>(
                error,
            ),
        },
{
    if registry.is_usable(id) {
        Ok(EngineInvocation::send(id, text))
    } else {
        Err(SendError::UnknownOrDeadConnection)
    }
}

/// Tells whether what the engine wrote to standard error reports the
/// connection closed.
pub fn stderr_reports_closed(stderr: &str) -> (r: bool)
    ensures
        r == reports_closed(stderr@),
{
    let hay = chars_of(stderr);
    let needle = chars_of("closed");
    contains(&hay, &needle)
}

/// Records what became of the launch that `plan_send` asked for, at time
/// `now`. An exit with success means the message was accepted. A failure is
/// handed on with the engine's diagnostics, and marks the connection dead
/// if they report it closed.
pub fn settle_send(
    registry: &mut Registry,
    id: ConnectionId,
    outcome: ProcessOutcome,
    now: u64,
) -> (r: Result<(), SendError>)
    ensures
        r == send_result(outcome),
        final(registry)@ == records_after_send(old(registry)@, id, outcome, now),
{
    match outcome {
        ProcessOutcome::SpawnFailed => Err(SendError::SpawnFailed),
        ProcessOutcome::Exited { success, stdout, stderr } => {
            if success {
                Ok(())
            } else {
                if stderr_reports_closed(stderr.as_str()) {
                    registry.mark_dead(id, now);
                }
                Err(SendError::EngineRejected(stderr))
            }
        },
    }
}

} // verus!
