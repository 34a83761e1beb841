//! Events of an agent's lifecycle.
use vstd::prelude::*;
use std::time::{Duration, Instant};
use crate::events::HandlerId;

verus! {

/// Represents the type of event that occurred.
#[derive(Debug, Clone, Copy, PartialEq, Eq, Hash, Structural)]
pub enum EventType {
    /// An agent successfully connected to the ngrok service.
    AgentConnectSucceeded,
    /// An agent disconnected from the ngrok service.
    AgentDisconnected,
    /// A heartbeat response was received.
    AgentHeartbeatReceived,
}

impl EventType {
    /// The name of the type.
    pub open spec fn text(&self) -> Seq<char> {
        match self {
            EventType::AgentConnectSucceeded => "AgentConnectSucceeded"@,
            EventType::AgentDisconnected => "AgentDisconnected"@,
            EventType::AgentHeartbeatReceived => "AgentHeartbeatReceived"@,
        }
    }

    /// The name of the type.
    pub fn to_string(&self) -> (r: String)
        ensures
            r@ == self.text(),
    {
        match self {
            EventType::AgentConnectSucceeded => "AgentConnectSucceeded".to_owned(),
            EventType::AgentDisconnected => "AgentDisconnected".to_owned(),
            EventType::AgentHeartbeatReceived => "AgentHeartbeatReceived".to_owned(),
        }
    }
}

/// An event emitted by the agent.
#[derive(Debug)]
pub enum Event {
    /// Emitted when the agent successfully connects to the ngrok service.
    AgentConnectSucceeded {
        /// When the event occurred.
        timestamp: Instant,
    },
    /// Emitted when the agent disconnects from the ngrok service.
    AgentDisconnected {
        /// When the event occurred.
        timestamp: Instant,
        /// The error that caused the disconnection, if any.
        error: Option<String>,
    },
    /// Emitted when a heartbeat response is received.
    AgentHeartbeatReceived {
        /// When the event occurred.
        timestamp: Instant,
        /// The round-trip latency of the heartbeat.
        latency: Duration,
    },
}

impl Clone for Event {
    fn clone(&self) -> (r: Event)
        ensures
            r == *self,
    {
        match self {
            Event::AgentConnectSucceeded { timestamp } => Event::AgentConnectSucceeded {
                timestamp: *timestamp,
            },
            Event::AgentDisconnected { timestamp, error } => Event::AgentDisconnected {
                timestamp: *timestamp,
                error: error.clone(),
            },
            Event::AgentHeartbeatReceived { timestamp, latency } => Event::AgentHeartbeatReceived {
                timestamp: *timestamp,
                latency: *latency,
            },
        }
    }
}

impl Event {
    /// The type of this event.
    pub open spec fn kind(&self) -> EventType {
        match self {
            Event::AgentConnectSucceeded { .. } => EventType::AgentConnectSucceeded,
            Event::AgentDisconnected { .. } => EventType::AgentDisconnected,
            Event::AgentHeartbeatReceived { .. } => EventType::AgentHeartbeatReceived,
        }
    }

    /// When this event occurred.
    pub open spec fn at(&self) -> Instant {
        match self {
            Event::AgentConnectSucceeded { timestamp } => *timestamp,
            Event::AgentDisconnected { timestamp, .. } => *timestamp,
            Event::AgentHeartbeatReceived { timestamp, .. } => *timestamp,
        }
    }

    /// Returns the type of this event.
    pub fn event_type(&self) -> (r: EventType)
        ensures
            r == self.kind(),
    {
        match self {
            Event::AgentConnectSucceeded { .. } => EventType::AgentConnectSucceeded,
            Event::AgentDisconnected { .. } => EventType::AgentDisconnected,
            Event::AgentHeartbeatReceived { .. } => EventType::AgentHeartbeatReceived,
        }
    }

    /// Returns the timestamp when this event occurred.
    pub fn timestamp(&self) -> (r: Instant)
        ensures
            r == self.at(),
    {
        match self {
            Event::AgentConnectSucceeded { timestamp } => *timestamp,
            Event::AgentDisconnected { timestamp, .. } => *timestamp,
            Event::AgentHeartbeatReceived { timestamp, .. } => *timestamp,
        }
    }
}

/// A callback function for handling agent events, by its place among those that the application
/// keeps.
///
/// Event handlers must not block. If you need to perform blocking operations,
/// send the event to a channel or spawn a task.
pub type EventHandler = HandlerId;

/// An event is of the type that it is named after, and occurred when it says.
pub proof fn event_is_of_its_type(at: Instant, error: Option<String>, latency: Duration)
    ensures
        ({
            let connected = Event::AgentConnectSucceeded { timestamp: at };
            let disconnected = Event::AgentDisconnected { timestamp: at, error };
            let heartbeat = Event::AgentHeartbeatReceived { timestamp: at, latency };
            &&& connected.kind() is AgentConnectSucceeded && connected.at() == at
            &&& disconnected.kind() is AgentDisconnected && disconnected.at() == at
            &&& heartbeat.kind() is AgentHeartbeatReceived && heartbeat.at() == at
        }),
{
}

/// The types of events are told apart by their names.
pub proof fn event_types_have_different_names(a: EventType, b: EventType)
    ensures
        a.text() == b.text() ==> a == b,
{
    reveal_strlit("AgentConnectSucceeded");
    reveal_strlit("AgentDisconnected");
    reveal_strlit("AgentHeartbeatReceived");
    assert("AgentConnectSucceeded"@[5] == 'C');
    assert("AgentDisconnected"@[5] == 'D');
    assert("AgentHeartbeatReceived"@[5] == 'H');
}

} // verus!
