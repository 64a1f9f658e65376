//! The listener supervisor: for each port, whether the engine is listening
//! there, and what to do when a listener is started, stopped, or ends.
//!
//! The supervisor decides; it does not run processes. Starting takes two
//! steps with the launch between them: `begin_start` says what to launch,
//! `finish_start` records what became of the launch.

use std::collections::HashMap;
use vstd::prelude::*;
use crate::engine::{EngineInvocation, InvocationView};
use crate::error::StartError;
use crate::event::ListenerFailure;

verus! {

broadcast use vstd::std_specs::hash::group_hash_axioms;

/// Where the listener of a port stands.
#[derive(Debug, Clone, Copy, PartialEq, Eq, Structural)]
pub enum ListenerState {
    /// No listener was ever started on the port.
    NotStarted,
    /// The engine is being launched.
    Starting,
    /// The engine process with this number is listening.
    Running(u32),
    /// The listener ended because it was asked to stop.
    Stopped,
    /// The listener could not be started, or ended unasked.
    Failed(ListenerFailure),
}

/// Names a running listener; needed to stop it.
#[derive(Debug, Clone, Copy, PartialEq, Eq, Structural)]
pub struct ListenerHandle {
    pub port: u16,
    /// The number of the engine process that listens.
    pub process: u32,
}

/// What the supervisor keeps for one port.
#[derive(Debug, Clone, Copy, PartialEq, Eq, Structural)]
pub struct Listener {
    pub state: ListenerState,
    /// Whether the running listener was asked to stop.
    pub stop_requested: bool,
}

impl Listener {
    /// The listener of a port on which none was ever started.
    pub open spec fn fresh() -> Listener {
        Listener { state: ListenerState::NotStarted, stop_requested: false }
    }

    /// The listener of a port while its engine is being launched.
    pub open spec fn starting() -> Listener {
        Listener { state: ListenerState::Starting, stop_requested: false }
    }

    /// Whether a listener occupies the port: one is starting or running.
    pub open spec fn is_active(self) -> bool {
        self.state is Starting || self.state is Running
    }

    /// Whether the engine process `process` is the one listening.
    pub open spec fn runs(self, process: u32) -> bool {
        self.state == ListenerState::Running(process)
    }

    /// Tells whether the engine process `process` is the one listening.
    pub fn runs_process(&self, process: u32) -> (r: bool)
        ensures
            r == self.runs(process),
    {
        match self.state {
            ListenerState::Running(running) => running == process,
            _ => false,
        }
    }

    /// The listener after a launch ended: with the number of the new process,
    /// or without one if none could be created. Only a listener that is
    /// starting takes note.
    pub open spec fn after_launch(self, process: Option<u32>) -> Listener {
        if self.state is Starting {
            match process {
                Some(process) => Listener {
                    state: ListenerState::Running(process),
                    stop_requested: false,
                },
                None => Listener {
                    state: ListenerState::Failed(ListenerFailure::SpawnFailed),
                    stop_requested: false,
                },
            }
        } else {
            self
        }
    }

    /// The listener after it was asked to stop process `process`.
    pub open spec fn after_stop_request(self, process: u32) -> Listener {
        if self.runs(process) {
            Listener { stop_requested: true, ..self }
        } else {
            self
        }
    }

    /// The listener after the output of process `process` ended: stopped if
    /// that was asked for, failed if not. The end of a process that is not
    /// the one listening changes nothing.
    pub open spec fn after_end_of_stream(self, process: u32) -> Listener {
        if self.runs(process) {
            if self.stop_requested {
                Listener { state: ListenerState::Stopped, stop_requested: false }
            } else {
                Listener {
                    state: ListenerState::Failed(ListenerFailure::EngineExited),
                    stop_requested: false,
                }
            }
        } else {
            self
        }
    }
}

/// What is decided when a listener is to be started on `port`: the launch
/// to perform, unless a listener is starting or running there.
pub open spec fn start_decision(listener: Listener, port: u16) -> Result<
    InvocationView,
    StartError,
> {
    if listener.is_active() {
        Err(StartError::AlreadyRunning)
    } else {
        Ok(InvocationView::listen(port))
    }
}

/// What `finish_start` answers for a listener in state `listener` on `port`.
pub open spec fn launch_result(listener: Listener, port: u16, process: Option<u32>) -> Result<
    ListenerHandle,
    StartError,
> {
    if listener.state is Starting {
        match process {
            Some(process) => Ok(ListenerHandle { port, process }),
            None => Err(StartError::SpawnFailed),
        }
    } else if listener.state is Running {
        Err(StartError::AlreadyRunning)
    } else {
        Err(StartError::SpawnFailed)
    }
}

/// What `end_of_stream` reports for a listener in state `listener`.
pub open spec fn failure_at_end(listener: Listener, process: u32) -> Option<ListenerFailure> {
    if listener.runs(process) && !listener.stop_requested {
        Some(ListenerFailure::EngineExited)
    } else {
        None
    }
}

/// Something that happens to the listener of a port once it was started.
pub enum ListenerEvent {
    /// A launch ended, with the number of the new process or without one.
    Launched(Option<u32>),
    /// The listener was asked to stop the process of this number.
    StopRequested(u32),
    /// The output of the process of this number ended.
    StreamEnded(u32),
}

impl Listener {
    /// The listener after `event`.
    pub open spec fn after(self, event: ListenerEvent) -> Listener {
        match event {
            ListenerEvent::Launched(process) => self.after_launch(process),
            ListenerEvent::StopRequested(process) => self.after_stop_request(process),
            ListenerEvent::StreamEnded(process) => self.after_end_of_stream(process),
        }
    }

    /// The listener after the events of `events`, in order.
    pub open spec fn after_all(self, events: Seq<ListenerEvent>) -> Listener
        decreases events.len(),
    {
        if events.len() == 0 {
            self
        } else {
            self.after_all(events.drop_last()).after(events.last())
        }
    }
}

/// A running listener keeps its port until the output of its own process
/// ends: whatever else is reported in between, launches, requests to stop,
/// the end of other processes, the same process is listening and a new
/// start on the port is refused.
pub proof fn lemma_running_until_stream_ends(
    listener: Listener,
    port: u16,
    process: u32,
    events: Seq<ListenerEvent>,
)
    requires
        listener.runs(process),
        forall|i: int|
            0 <= i < events.len() ==> #[trigger] events[i] != ListenerEvent::StreamEnded(process),
    ensures
        listener.after_all(events).runs(process),
        start_decision(listener.after_all(events), port) == Err::<InvocationView, StartError>(
            StartError::AlreadyRunning,
        ),
    decreases events.len(),
{
    if events.len() > 0 {
        lemma_running_until_stream_ends(listener, port, process, events.drop_last());
    }
}

/// A port never hosts two listeners. Once a listener was started and its
/// engine launched, a second start on the port is refused; it stays refused
/// after the listener was asked to stop, until the end of its output is
/// reported. After that, or after a launch that failed, the port is free.
pub proof fn lemma_one_listener_per_port(port: u16, process: u32)
    ensures
        start_decision(Listener::fresh(), port) is Ok,
        start_decision(Listener::starting(), port) == Err::<InvocationView, StartError>(
            StartError::AlreadyRunning,
        ),
        start_decision(Listener::starting().after_launch(Some(process)), port) == Err::<
            InvocationView,
            StartError,
        >(StartError::AlreadyRunning),
        start_decision(
            Listener::starting().after_launch(Some(process)).after_stop_request(process),
            port,
        ) == Err::<InvocationView, StartError>(StartError::AlreadyRunning),
        start_decision(
            Listener::starting().after_launch(Some(process)).after_end_of_stream(process),
            port,
        ) is Ok,
        start_decision(
            Listener::starting().after_launch(Some(process)).after_stop_request(
                process,
            ).after_end_of_stream(process),
            port,
        ) is Ok,
        start_decision(Listener::starting().after_launch(None), port) is Ok,
{
}

/// The supervisor of the listeners, one per port at most.
pub struct ListenerSupervisor {
    slots: HashMap<u16, Listener>,
}

impl View for ListenerSupervisor {
    type V = Map<u16, Listener>;

    /// The listener of every port; a port that was never used has a fresh one.
    closed spec fn view(&self) -> Map<u16, Listener> {
        Map::new(
            |port: u16| true,
            |port: u16|
                if self.slots@.contains_key(port) {
                    self.slots@[port]
                } else {
                    Listener::fresh()
                },
        )
    }
}

impl ListenerSupervisor {
    /// A supervisor that has started no listener.
    pub fn new() -> (supervisor: ListenerSupervisor)
        ensures
            supervisor@ == Map::new(|port: u16| true, |port: u16| Listener::fresh()),
    {
        let supervisor = ListenerSupervisor { slots: HashMap::new() };
        assert(supervisor@ =~= Map::new(|port: u16| true, |port: u16| Listener::fresh()));
        supervisor
    }

    /// The view has an entry for every port.
    pub proof fn lemma_total(&self, port: u16)
        ensures
            self@.contains_key(port),
    {
    }

    fn slot(&self, port: u16) -> (listener: Listener)
        ensures
            listener == self@[port],
    {
        match self.slots.get(&port) {
            Some(listener) => *listener,
            None => Listener { state: ListenerState::NotStarted, stop_requested: false },
        }
    }

    fn set_slot(&mut self, port: u16, listener: Listener)
        ensures
            final(self)@ == old(self)@.insert(port, listener),
    {
        self.slots.insert(port, listener);
        assert(self@ =~= old(self)@.insert(port, listener));
    }

    /// Where the listener of `port` stands.
    pub fn state(&self, port: u16) -> (state: ListenerState)
        ensures
            state == self@[port].state,
    {
        self.slot(port).state
    }

    /// Whether the listener of `port` was asked to stop and has not ended yet.
    pub fn stop_requested(&self, port: u16) -> (r: bool)
        ensures
            r == self@[port].stop_requested,
    {
        self.slot(port).stop_requested
    }

    /// Asks to start a listener on `port`. If one is starting or running
    /// there, the answer is `AlreadyRunning` and nothing changes. Otherwise
    /// the listener is starting, and the answer is the launch to perform.
    pub fn begin_start(&mut self, port: u16) -> (r: Result<EngineInvocation, StartError>)
        ensures
            match r {
                Ok(invocation) => start_decision(old(self)@[port], port) == Ok::<
                    InvocationView,
                    StartError,
                >(invocation@) && final(self)@ == old(self)@.insert(port, Listener::starting()),
                Err(error) => start_decision(old(self)@[port], port) == Err::<
                    InvocationView,
                    StartError,
                >(error) && final(self)@ == old(self)@,
            },
    {
        let listener = self.slot(port);
        match listener.state {
            ListenerState::Starting | ListenerState::Running(_) => Err(StartError::AlreadyRunning),
            _ => {
                self.set_slot(
                    port,
                    Listener { state: ListenerState::Starting, stop_requested: false },
                );
                Ok(EngineInvocation::listen(port))
            },
        }
    }

    /// Records what became of the launch that `begin_start` asked for:
    /// `process` is the number of the new engine process, or `None` if none
    /// could be created. With a process the listener is running and the
    /// answer is its handle; without one it has failed. If no start is
    /// pending on `port`, nothing changes and the answer is an error:
    /// `AlreadyRunning` beside a running listener, `SpawnFailed` otherwise.
    pub fn finish_start(&mut self, port: u16, process: Option<u32>) -> (r: Result<
        ListenerHandle,
        StartError,
    >)
        ensures
            r == launch_result(old(self)@[port], port, process),
            final(self)@ == old(self)@.insert(port, old(self)@[port].after_launch(process)),
    {
        let listener = self.slot(port);
        match listener.state {
            ListenerState::Starting => match process {
                Some(process) => {
                    self.set_slot(
                        port,
                        Listener { state: ListenerState::Running(process), stop_requested: false },
                    );
                    Ok(ListenerHandle { port, process })
                },
                None => {
                    self.set_slot(
                        port,
                        Listener {
                            state: ListenerState::Failed(ListenerFailure::SpawnFailed),
                            stop_requested: false,
                        },
                    );
                    Err(StartError::SpawnFailed)
                },
            },
            ListenerState::Running(_) => {
                assert(self@ =~= old(self)@.insert(port, old(self)@[port]));
                Err(StartError::AlreadyRunning)
            },
            _ => {
                assert(self@ =~= old(self)@.insert(port, old(self)@[port]));
                Err(StartError::SpawnFailed)
            },
        }
    }

    /// Asks the listener that `handle` names to stop. The answer says
    /// whether the caller is to terminate the engine process of the handle:
    /// it is, if that process is the one listening. The listener stays
    /// running until the end of its output is reported.
    pub fn request_stop(&mut self, handle: ListenerHandle) -> (terminate: bool)
        ensures
            terminate == old(self)@[handle.port].runs(handle.process),
            final(self)@ == old(self)@.insert(
                handle.port,
                old(self)@[handle.port].after_stop_request(handle.process),
            ),
    {
        let listener = self.slot(handle.port);
        if listener.runs_process(handle.process) {
            self.set_slot(handle.port, Listener { state: listener.state, stop_requested: true });
            true
        } else {
            assert(self@ =~= old(self)@.insert(handle.port, old(self)@[handle.port]));
            false
        }
    }

    /// Records that the output of the engine process of `handle` has ended.
    /// If that process is the one listening, the listener is stopped when
    /// that was asked for, and failed when not; the answer is the failure to
    /// report, if any.
    pub fn end_of_stream(&mut self, handle: ListenerHandle) -> (failure: Option<ListenerFailure>)
        ensures
            failure == failure_at_end(old(self)@[handle.port], handle.process),
            final(self)@ == old(self)@.insert(
                handle.port,
                old(self)@[handle.port].after_end_of_stream(handle.process),
            ),
    {
        let listener = self.slot(handle.port);
        if !listener.runs_process(handle.process) {
            assert(self@ =~= old(self)@.insert(handle.port, old(self)@[handle.port]));
            None
        } else if listener.stop_requested {
            self.set_slot(
                handle.port,
                Listener { state: ListenerState::Stopped, stop_requested: false },
            );
            None
        } else {
            self.set_slot(
                handle.port,
                Listener {
                    state: ListenerState::Failed(ListenerFailure::EngineExited),
                    stop_requested: false,
                },
            );
            Some(ListenerFailure::EngineExited)
        }
    }
}

} // verus!
