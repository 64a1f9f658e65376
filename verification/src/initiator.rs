//! The connection initiator: how the engine is launched to connect to a
//! peer, and how its answer becomes a registered connection.

use vstd::prelude::*;
use crate::decimal::{parse_u32, parse_u32_in};
use crate::engine::{EngineInvocation, InvocationView, ProcessOutcome};
use crate::error::StartError;
use crate::registry::{registered, usable, ConnectionId, Records, Registry};
use crate::text::{chars_of, trim_bounds, trimmed};

verus! {

/// The identifier that the engine printed: its standard output, without
/// the whitespace around it, read as a numeral.
pub open spec fn printed_id(stdout: Seq<char>) -> Option<ConnectionId> {
    parse_u32(trimmed(stdout))
}

/// What a finished launch in start mode means for the caller.
pub open spec fn start_result(outcome: ProcessOutcome) -> Result<ConnectionId, StartError> {
    match outcome {
        ProcessOutcome::SpawnFailed => Err(StartError::SpawnFailed),
        ProcessOutcome::Exited { success, stdout, stderr } => if !success {
            Err(StartError::EngineExitFailure(stderr))
        } else {
            match printed_id(stdout@) {
                Some(id) => Ok(id),
                None => Err(StartError::MalformedEngineOutput),
            }
        },
    }
}

/// The records after a launch that connected to a peer has finished: the
/// new identifier is registered with the peer's address and port; a launch
/// that gave no identifier changes nothing.
pub open spec fn records_after_start(
    records: Records,
    peer_address: Seq<char>,
    peer_port: u16,
    outcome: ProcessOutcome,
    now: u64,
) -> Records {
    match start_result(outcome) {
        Ok(id) => registered(records, id, Some(peer_address), Some(peer_port), now),
        Err(_) => records,
    }
}

/// A launch that gave an identifier leaves that identifier on record with
/// the peer's port, and with the peer's address unless that is empty. An
/// identifier that was not on record before is usable afterwards, and its
/// record dates from `now`; one that was dead stays dead.
pub proof fn lemma_start_registers(
    records: Records,
    peer_address: Seq<char>,
    peer_port: u16,
    outcome: ProcessOutcome,
    now: u64,
)
    requires
        start_result(outcome) is Ok,
    ensures
        ({
            let id = start_result(outcome)->Ok_0;
            let after = records_after_start(records, peer_address, peer_port, outcome, now);
            &&& after.contains_key(id)
            &&& after[id].peer_port == Some(peer_port)
            &&& peer_address.len() > 0 ==> after[id].peer_address == peer_address
            &&& !records.contains_key(id) ==> usable(after, id) && after[id].id == id
                && after[id].peer_address == peer_address && after[id].created_at == now
            &&& records.contains_key(id) ==> (usable(after, id) <==> usable(records, id))
        }),
{
}

/// Describes the launch that connects to the peer at `peer_address` and
/// `peer_port`, announcing `local_id` to it.
pub fn plan_start(peer_address: &str, peer_port: u16, local_id: &str) -> (invocation:
    EngineInvocation)
    ensures
        invocation@ == InvocationView::start(peer_address@, peer_port, local_id@),
{
    EngineInvocation::start(peer_address, peer_port, local_id)
}

/// Reads the engine's standard output as the identifier of a new connection.
pub fn read_printed_id(stdout: &str) -> (r: Option<ConnectionId>)
    ensures
        r == printed_id(stdout@),
{
    let chars = chars_of(stdout);
    let (from, to) = trim_bounds(&chars);
    parse_u32_in(&chars, from, to)
}

/// Records what became of the launch that `plan_start` asked for, at time
/// `now`. If the engine exited with success and printed an identifier, the
/// connection is registered with the peer's address and port, and the
/// identifier is the answer.
pub fn settle_start(
    registry: &mut Registry,
    peer_address: &str,
    peer_port: u16,
    outcome: ProcessOutcome,
    now: u64,
) -> (r: Result<ConnectionId, StartError>)
    ensures
        r == start_result(outcome),
        final(registry)@ == records_after_start(
            old(registry)@,
            peer_address@,
            peer_port,
            outcome,
            now,
        ),
{
    match outcome {
        ProcessOutcome::SpawnFailed => Err(StartError::SpawnFailed),
        ProcessOutcome::Exited { success, stdout, stderr } => {
            if !success {
                Err(StartError::EngineExitFailure(stderr))
            } else {
                match read_printed_id(stdout.as_str()) {
                    Some(id) => {
                        registry.register(id, Some(peer_address), Some(peer_port), now);
                        Ok(id)
                    },
                    None => Err(StartError::MalformedEngineOutput),
                }
            }
        },
    }
}

} // verus!
