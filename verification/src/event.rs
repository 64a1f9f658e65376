//! What the bridge reports to the user interface.

use vstd::prelude::*;
use crate::registry::ConnectionId;

verus! {

/// A message that arrived on a connection.
#[derive(Debug, PartialEq, Eq)]
pub struct IncomingMessageEvent {
    pub source_id: ConnectionId,
    pub text: String,
    pub received_at: u64,
}

/// A line of engine output that is not a framed message.
#[derive(Debug, PartialEq, Eq)]
pub struct DecodeError {
    pub raw_line: String,
}

/// Why a listener is no longer running.
#[derive(Debug, Clone, Copy, PartialEq, Eq, Structural)]
pub enum ListenerFailure {
    /// The engine process could not be created.
    SpawnFailed,
    /// The engine's output ended though nobody had asked it to stop.
    EngineExited,
}

/// One entry of the stream that the user interface subscribes to: chat
/// content, or one of two operational signals.
#[derive(Debug, PartialEq, Eq)]
pub enum Event {
    Incoming(IncomingMessageEvent),
    ListenerFailed { reason: ListenerFailure },
    DecodeError(DecodeError),
}

/// The tag that tells the three sorts of event apart.
#[derive(Debug, Clone, Copy, PartialEq, Eq, Structural)]
pub enum EventKind {
    Incoming,
    ListenerFailed,
    DecodeError,
}

/// An event as a mathematical value.
pub enum EventView {
    Incoming { source_id: ConnectionId, text: Seq<char>, received_at: u64 },
    ListenerFailed { reason: ListenerFailure },
    DecodeError { raw_line: Seq<char> },
}

impl EventView {
    pub open spec fn kind(self) -> EventKind {
        match self {
            EventView::Incoming { .. } => EventKind::Incoming,
            EventView::ListenerFailed { .. } => EventKind::ListenerFailed,
            EventView::DecodeError { .. } => EventKind::DecodeError,
        }
    }
}

impl View for Event {
    type V = EventView;

    open spec fn view(&self) -> EventView {
        match *self {
            Event::Incoming(message) => EventView::Incoming {
                source_id: message.source_id,
                text: message.text@,
                received_at: message.received_at,
            },
            Event::ListenerFailed { reason } => EventView::ListenerFailed { reason },
            Event::DecodeError(error) => EventView::DecodeError { raw_line: error.raw_line@ },
        }
    }
}

impl Event {
    /// The sort of this event.
    pub fn kind(&self) -> (r: EventKind)
        ensures
            r == self@.kind(),
    {
        match self {
            Event::Incoming(_) => EventKind::Incoming,
            Event::ListenerFailed { .. } => EventKind::ListenerFailed,
            Event::DecodeError(_) => EventKind::DecodeError,
        }
    }
}

} // verus!
