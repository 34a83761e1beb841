//! Events emitted by the ngrok agent.
use vstd::prelude::*;
use std::time::Duration;

verus! {

/// Events emitted by the ngrok agent.
#[derive(Debug)]
pub enum Event {
    /// The agent successfully connected to the ngrok service.
    AgentConnectSucceeded,
    /// The agent disconnected from the ngrok service.
    AgentDisconnected {
        /// The error that caused the disconnection, if any.
        error: Option<String>,
    },
    /// A heartbeat response was received from the ngrok service.
    AgentHeartbeatReceived {
        /// The round-trip latency of the heartbeat.
        latency: Duration,
    },
}

impl Clone for Event {
    fn clone(&self) -> (r: Event)
        ensures
            r == *self,
    {
        match self {
            Event::AgentConnectSucceeded => Event::AgentConnectSucceeded,
            Event::AgentDisconnected { error } => Event::AgentDisconnected { error: error.clone() },
            Event::AgentHeartbeatReceived { latency } => Event::AgentHeartbeatReceived {
                latency: *latency,
            },
        }
    }
}

} // verus!
