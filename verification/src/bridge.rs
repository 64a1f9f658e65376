//! The bridge as one value: the registry, the listeners and the event bus
//! behind the three operations that the user interface calls, and the two
//! that the listener's read loop calls.
//!
//! An operation that needs the engine takes two steps with the launch
//! between them: the first decides and describes the launch, the second
//! takes what the launch reported. The caller runs the engine, reads its
//! output and tells the time.

use vstd::prelude::*;
use crate::dispatcher::{plan_send, records_after_send, send_plan, send_result, settle_send};
use crate::engine::{EngineInvocation, InvocationView, ProcessOutcome};
use crate::error::{SendError, StartError};
use crate::event::{Event, EventView};
use crate::event_bus::{saturating_count, BusView, EventBus};
use crate::framing::{decode, decode_line, event_of_line};
use crate::initiator::{plan_start, records_after_start, settle_start, start_result};
use crate::listener::{
    failure_at_end, launch_result, start_decision, Listener, ListenerHandle, ListenerState,
    ListenerSupervisor,
};
use crate::registry::{
    registered, usable, well_keyed, ConnectionId, ConnectionRecord, Records, Registry,
};

verus! {

/// A bridge as a mathematical value.
pub struct BridgeView {
    /// The connection records, by identifier.
    pub connections: Records,
    /// The listener of every port.
    pub listeners: Map<u16, Listener>,
    /// The events that wait for the user interface.
    pub bus: BusView,
    /// How many lines of engine output were not framed messages.
    pub decode_errors: nat,
}

impl BridgeView {
    /// The bridge before anything happened, with a bus of the given capacity.
    pub open spec fn initial(capacity: nat) -> BridgeView {
        BridgeView {
            connections: Map::empty(),
            listeners: Map::new(|port: u16| true, |port: u16| Listener::fresh()),
            bus: BusView { pending: Seq::empty(), capacity, dropped: 0 },
            decode_errors: 0,
        }
    }

    /// Whether the parts of the bridge are well formed: every record is filed
    /// under its identifier, every port has a listener, the unread events
    /// fit the bus, and the counters fit their machine types.
    pub open spec fn wf(self) -> bool {
        &&& well_keyed(self.connections)
        &&& self.connections.dom().finite()
        &&& forall|port: u16| self.listeners.contains_key(port)
        &&& self.bus.wf()
        &&& self.decode_errors <= u64::MAX
    }

    /// The bridge after the listening engine wrote `line` at time `now`. A
    /// framed message is published, and its connection registered if it was
    /// unknown. Any other line is counted and published as a decode error;
    /// it changes no connection and no listener.
    pub open spec fn after_line(self, line: Seq<char>, now: u64) -> BridgeView {
        BridgeView {
            connections: match decode(line) {
                Some((source_id, text)) => registered(self.connections, source_id, None, None, now),
                None => self.connections,
            },
            listeners: self.listeners,
            bus: self.bus.publish(event_of_line(line, now)),
            decode_errors: match decode(line) {
                Some(_) => self.decode_errors,
                None => saturating_count(self.decode_errors, 1),
            },
        }
    }

    /// The bridge after the lines of `lines` were written, all at time `now`.
    pub open spec fn after_lines(self, lines: Seq<Seq<char>>, now: u64) -> BridgeView
        decreases lines.len(),
    {
        if lines.len() == 0 {
            self
        } else {
            self.after_lines(lines.drop_last(), now).after_line(lines.last(), now)
        }
    }

    /// The bridge after the output of the engine process of `handle` ended.
    pub open spec fn after_end_of_stream(self, handle: ListenerHandle) -> BridgeView {
        BridgeView {
            listeners: self.listeners.insert(
                handle.port,
                self.listeners[handle.port].after_end_of_stream(handle.process),
            ),
            bus: match failure_at_end(self.listeners[handle.port], handle.process) {
                Some(reason) => self.bus.publish(EventView::ListenerFailed { reason }),
                None => self.bus,
            },
            ..self
        }
    }
}

/// The read loop outlives malformed lines. Every line gives rise to one
/// event, a message or a decode error, and the events are published in the
/// order of the lines; the connections end up as if only the framed lines
/// had been written; every other line is counted; no listener changes.
pub proof fn lemma_malformed_lines_skipped(bridge: BridgeView, lines: Seq<Seq<char>>, now: u64)
    requires
        bridge.decode_errors <= u64::MAX,
    ensures
        bridge.after_lines(lines, now).bus == bridge.bus.publish_all(
            lines.map_values(|line: Seq<char>| event_of_line(line, now)),
        ),
        bridge.after_lines(lines, now).connections == bridge.after_lines(
            lines.filter(|line: Seq<char>| decode(line) is Some),
            now,
        ).connections,
        bridge.after_lines(lines, now).decode_errors == saturating_count(
            bridge.decode_errors,
            lines.filter(|line: Seq<char>| decode(line) is None).len(),
        ),
        bridge.after_lines(lines, now).listeners == bridge.listeners,
    decreases lines.len(),
{
    let framed = |line: Seq<char>| decode(line) is Some;
    let malformed = |line: Seq<char>| decode(line) is None;
    let event = |line: Seq<char>| event_of_line(line, now);
    reveal(Seq::filter);
    if lines.len() > 0 {
        let earlier = lines.drop_last();
        lemma_malformed_lines_skipped(bridge, earlier, now);
        assert(lines.map_values(event).drop_last() =~= earlier.map_values(event));
        if framed(lines.last()) {
            assert(lines.filter(framed).drop_last() =~= earlier.filter(framed));
        }
    }
}

/// The bridge between the user interface and the engine.
pub struct Bridge {
    registry: Registry,
    listeners: ListenerSupervisor,
    bus: EventBus,
    decode_errors: u64,
}

impl View for Bridge {
    type V = BridgeView;

    closed spec fn view(&self) -> BridgeView {
        BridgeView {
            connections: self.registry@,
            listeners: self.listeners@,
            bus: self.bus@,
            decode_errors: self.decode_errors as nat,
        }
    }
}

impl Bridge {
    /// The parts of a bridge are well formed.
    pub proof fn lemma_wf(&self)
        ensures
            self@.wf(),
    {
        self.registry.lemma_well_keyed();
        self.bus.lemma_wf();
        assert forall|port: u16| self@.listeners.contains_key(port) by {
            self.listeners.lemma_total(port);
        }
    }

    /// A bridge without connections or listeners, whose bus holds
    /// `capacity` unread events at most.
    pub fn new(capacity: usize) -> (bridge: Bridge)
        ensures
            bridge@ == BridgeView::initial(capacity as nat),
    {
        Bridge {
            registry: Registry::new(),
            listeners: ListenerSupervisor::new(),
            bus: EventBus::new(capacity),
            decode_errors: 0,
        }
    }

    /// Asks to start a listener on `port`. The answer is the launch to
    /// perform, or `AlreadyRunning` if a listener is starting or running on
    /// the port; then nothing changes.
    pub fn init_listener(&mut self, port: u16) -> (r: Result<EngineInvocation, StartError>)
        ensures
            match r {
                Ok(invocation) => start_decision(old(self)@.listeners[port], port) == Ok::<
                    InvocationView,
                    StartError,
                >(invocation@) && final(self)@ == (BridgeView {
                    listeners: old(self)@.listeners.insert(port, Listener::starting()),
                    ..old(self)@
                }),
                Err(error) => start_decision(old(self)@.listeners[port], port) == Err::<
                    InvocationView,
                    StartError,
                >(error) && final(self)@ == old(self)@,
            },
    {
        self.listeners.begin_start(port)
    }

    /// Records what became of the launch that `init_listener` asked for:
    /// `process` is the number of the new engine process, or `None` if none
    /// could be created.
    pub fn finish_init_listener(&mut self, port: u16, process: Option<u32>) -> (r: Result<
        ListenerHandle,
        StartError,
    >)
        ensures
            r == launch_result(old(self)@.listeners[port], port, process),
            final(self)@ == (BridgeView {
                listeners: old(self)@.listeners.insert(
                    port,
                    old(self)@.listeners[port].after_launch(process),
                ),
                ..old(self)@
            }),
    {
        self.listeners.finish_start(port, process)
    }

    /// Asks the listener that `handle` names to stop. The answer says
    /// whether the caller is to terminate the engine process of the handle.
    /// Events that wait on the bus stay there.
    pub fn stop_listener(&mut self, handle: ListenerHandle) -> (terminate: bool)
        ensures
            terminate == old(self)@.listeners[handle.port].runs(handle.process),
            final(self)@ == (BridgeView {
                listeners: old(self)@.listeners.insert(
                    handle.port,
                    old(self)@.listeners[handle.port].after_stop_request(handle.process),
                ),
                ..old(self)@
            }),
    {
        self.listeners.request_stop(handle)
    }

    /// Takes one line that the listening engine wrote, at time `now`.
    pub fn on_line(&mut self, line: &str, now: u64)
        ensures
            final(self)@ == old(self)@.after_line(line@, now),
    {
        match decode_line(line, now) {
            Ok(message) => {
                self.registry.register(message.source_id, None, None, now);
                self.bus.publish(Event::Incoming(message));
            },
            Err(error) => {
                if self.decode_errors < u64::MAX {
                    self.decode_errors = self.decode_errors + 1;
                }
                self.bus.publish(Event::DecodeError(error));
            },
        }
    }

    /// Records that the output of the engine process of `handle` has ended.
    /// A listener that ends unasked has failed, and the failure is published.
    pub fn on_end_of_stream(&mut self, handle: ListenerHandle)
        ensures
            final(self)@ == old(self)@.after_end_of_stream(handle),
    {
        match self.listeners.end_of_stream(handle) {
            Some(reason) => {
                self.bus.publish(Event::ListenerFailed { reason });
            },
            None => {},
        }
    }

    /// Describes the launch that connects to the peer at `peer_ip` and
    /// `peer_port`, announcing `my_id` to it.
    pub fn start_chat(&self, peer_ip: &str, peer_port: u16, my_id: &str) -> (invocation:
        EngineInvocation)
        ensures
            invocation@ == InvocationView::start(peer_ip@, peer_port, my_id@),
    {
        plan_start(peer_ip, peer_port, my_id)
    }

    /// Records what became of the launch that `start_chat` asked for, at
    /// time `now`. The answer is the identifier that the engine printed;
    /// the connection is then on record with the peer's address and port.
    pub fn finish_start_chat(
        &mut self,
        peer_ip: &str,
        peer_port: u16,
        outcome: ProcessOutcome,
        now: u64,
    ) -> (r: Result<ConnectionId, StartError>)
        ensures
            r == start_result(outcome),
            final(self)@ == (BridgeView {
                connections: records_after_start(
                    old(self)@.connections,
                    peer_ip@,
                    peer_port,
                    outcome,
                    now,
                ),
                ..old(self)@
            }),
    {
        settle_start(&mut self.registry, peer_ip, peer_port, outcome, now)
    }

    /// Decides whether `text` may be sent on `id`. The answer is the launch
    /// to perform, or `UnknownOrDeadConnection` if the identifier is not on
    /// record or its connection is dead; the engine is then not to be run.
    pub fn send_message(&self, id: ConnectionId, text: &str) -> (r: Result<
        EngineInvocation,
        SendError,
    >)
        ensures
            match r {
                Ok(invocation) => send_plan(self@.connections, id, text@) == Ok::<
                    InvocationView,
                    SendError,
                >(invocation@),
                Err(error) => send_plan(self@.connections, id, text@) == Err::<
                    InvocationView,
                    SendError,
                >(error),
            },
    {
        plan_send(&self.registry, id, text)
    }

    /// Records what became of the launch that `send_message` asked for, at
    /// time `now`.
    pub fn finish_send_message(
        &mut self,
        id: ConnectionId,
        outcome: ProcessOutcome,
        now: u64,
    ) -> (r: Result<(), SendError>)
        ensures
            r == send_result(outcome),
            final(self)@ == (BridgeView {
                connections: records_after_send(old(self)@.connections, id, outcome, now),
                ..old(self)@
            }),
    {
        settle_send(&mut self.registry, id, outcome, now)
    }

    /// Takes the oldest event that waits for the user interface, if any.
    pub fn next_event(&mut self) -> (r: Option<Event>)
        ensures
            match r {
                Some(event) => old(self)@.bus.pending.len() > 0 && event@
                    == old(self)@.bus.pending[0] && final(self)@ == (BridgeView {
                    bus: old(self)@.bus.without_oldest(),
                    ..old(self)@
                }),
                None => old(self)@.bus.pending.len() == 0 && final(self)@ == old(self)@,
            },
    {
        self.bus.poll()
    }

    /// Whether `id` is on record and alive.
    pub fn is_usable(&self, id: ConnectionId) -> (r: bool)
        ensures
            r == usable(self@.connections, id),
    {
        self.registry.is_usable(id)
    }

    /// The record of connection `id`, if there is one.
    pub fn connection(&self, id: ConnectionId) -> (r: Option<ConnectionRecord>)
        ensures
            match r {
                Some(record) => self@.connections.contains_key(id) && record@
                    == self@.connections[id],
                None => !self@.connections.contains_key(id),
            },
    {
        self.registry.get(id)
    }

    /// Where the listener of `port` stands.
    pub fn listener_state(&self, port: u16) -> (state: ListenerState)
        ensures
            state == self@.listeners[port].state,
    {
        self.listeners.state(port)
    }

    /// The number of events that wait for the user interface.
    pub fn pending_events(&self) -> (n: usize)
        ensures
            n == self@.bus.pending.len(),
    {
        self.bus.len()
    }

    /// The number of events discarded unread so far.
    pub fn dropped_events(&self) -> (n: u64)
        ensures
            n == self@.bus.dropped,
    {
        self.bus.dropped_count()
    }

    /// The number of lines of engine output that were not framed messages.
    /// The counter stops at the largest value it can hold.
    pub fn decode_errors(&self) -> (n: u64)
        ensures
            n == self@.decode_errors,
    {
        self.decode_errors
    }
}

} // verus!
