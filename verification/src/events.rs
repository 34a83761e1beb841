//! Event types dispatched to registered handlers.
use vstd::prelude::*;
use std::time::{Duration, SystemTime};
use crate::session::{AgentSession, SessionView};

verus! {

/// The place of a registered handler among the handlers that the application keeps.
#[derive(Debug, Clone, Copy, PartialEq, Eq, Structural)]
pub struct HandlerId {
    /// The place.
    pub slot: u64,
}

/// All events that can be dispatched to registered handlers.
///
/// Handlers receive these events synchronously. Handlers **must not block**.
#[derive(Debug)]
#[non_exhaustive]
pub enum Event {
    /// The agent successfully connected to ngrok cloud.
    AgentConnectSucceeded(AgentConnectSucceededEvent),
    /// The agent disconnected from ngrok cloud.
    AgentDisconnected(AgentDisconnectedEvent),
    /// A heartbeat was received from ngrok cloud.
    AgentHeartbeatReceived(AgentHeartbeatReceivedEvent),
    /// A new connection was opened on an endpoint.
    ConnectionOpened(ConnectionOpenedEvent),
    /// A connection was closed on an endpoint.
    ConnectionClosed(ConnectionClosedEvent),
    /// An HTTP request completed.
    HttpRequestComplete(HttpRequestCompleteEvent),
}

/// Fired when the agent successfully connects to ngrok cloud.
#[derive(Debug)]
pub struct AgentConnectSucceededEvent {
    /// When the event occurred.
    pub occurred_at: SystemTime,
    /// The agent session that was established.
    pub session: AgentSession,
}

/// Fired when the agent disconnects from ngrok cloud.
#[derive(Debug)]
pub struct AgentDisconnectedEvent {
    /// When the event occurred.
    pub occurred_at: SystemTime,
    /// The agent session that was disconnected.
    pub session: AgentSession,
    /// The error that caused the disconnect, if any.
    pub error: Option<String>,
}

/// Fired when a heartbeat is received from ngrok cloud.
#[derive(Debug)]
pub struct AgentHeartbeatReceivedEvent {
    /// When the event occurred.
    pub occurred_at: SystemTime,
    /// The active agent session.
    pub session: AgentSession,
    /// The measured round-trip latency.
    pub latency: Duration,
}

/// Fired when a new connection is opened on an endpoint.
#[derive(Debug)]
pub struct ConnectionOpenedEvent {
    /// When the event occurred.
    pub occurred_at: SystemTime,
    /// The endpoint ID.
    pub endpoint_id: String,
    /// The remote address.
    pub remote_addr: String,
}

/// Fired when a connection is closed on an endpoint.
#[derive(Debug)]
pub struct ConnectionClosedEvent {
    /// When the event occurred.
    pub occurred_at: SystemTime,
    /// The endpoint ID.
    pub endpoint_id: String,
    /// The remote address.
    pub remote_addr: String,
    /// How long the connection was open.
    pub duration: Duration,
    /// Bytes received from the remote.
    pub bytes_in: u64,
    /// Bytes sent to the remote.
    pub bytes_out: u64,
}

/// Fired when an HTTP request completes.
#[derive(Debug)]
pub struct HttpRequestCompleteEvent {
    /// When the event occurred.
    pub occurred_at: SystemTime,
    /// The endpoint ID.
    pub endpoint_id: String,
    /// The HTTP method.
    pub method: String,
    /// The request path.
    pub path: String,
    /// The HTTP status code.
    pub status_code: u16,
    /// How long the request took.
    pub duration: Duration,
}

/// An event, as mathematical values.
pub enum EventView {
    /// The agent successfully connected.
    Connected { at: SystemTime, session: SessionView },
    /// The agent disconnected.
    Disconnected { at: SystemTime, session: SessionView, error: Option<Seq<char>> },
    /// A heartbeat was received.
    Heartbeat { at: SystemTime, session: SessionView, latency: Duration },
    /// A connection was opened.
    Opened { at: SystemTime, endpoint_id: Seq<char>, remote_addr: Seq<char> },
    /// A connection was closed.
    Closed {
        at: SystemTime,
        endpoint_id: Seq<char>,
        remote_addr: Seq<char>,
        duration: Duration,
        bytes_in: u64,
        bytes_out: u64,
    },
    /// An HTTP request completed.
    Http {
        at: SystemTime,
        endpoint_id: Seq<char>,
        method: Seq<char>,
        path: Seq<char>,
        status_code: u16,
        duration: Duration,
    },
}

impl View for AgentConnectSucceededEvent {
    type V = EventView;

    open spec fn view(&self) -> EventView {
        EventView::Connected {
            at: self.occurred_at,
            session: self.session@,
        }
    }
}

impl Clone for AgentConnectSucceededEvent {
    fn clone(&self) -> (r: AgentConnectSucceededEvent)
        ensures
            r@ == self@,
    {
        AgentConnectSucceededEvent {
            occurred_at: self.occurred_at,
            session: self.session.clone(),
        }
    }
}

impl View for AgentDisconnectedEvent {
    type V = EventView;

    open spec fn view(&self) -> EventView {
        EventView::Disconnected {
            at: self.occurred_at,
            session: self.session@,
            error: self.error.deep_view(),
        }
    }
}

impl Clone for AgentDisconnectedEvent {
    fn clone(&self) -> (r: AgentDisconnectedEvent)
        ensures
            r@ == self@,
    {
        AgentDisconnectedEvent {
            occurred_at: self.occurred_at,
            session: self.session.clone(),
            error: self.error.clone(),
        }
    }
}

impl View for AgentHeartbeatReceivedEvent {
    type V = EventView;

    open spec fn view(&self) -> EventView {
        EventView::Heartbeat {
            at: self.occurred_at,
            session: self.session@,
            latency: self.latency,
        }
    }
}

impl Clone for AgentHeartbeatReceivedEvent {
    fn clone(&self) -> (r: AgentHeartbeatReceivedEvent)
        ensures
            r@ == self@,
    {
        AgentHeartbeatReceivedEvent {
            occurred_at: self.occurred_at,
            session: self.session.clone(),
            latency: self.latency,
        }
    }
}

impl View for ConnectionOpenedEvent {
    type V = EventView;

    open spec fn view(&self) -> EventView {
        EventView::Opened {
            at: self.occurred_at,
            endpoint_id: self.endpoint_id@,
            remote_addr: self.remote_addr@,
        }
    }
}

impl Clone for ConnectionOpenedEvent {
    fn clone(&self) -> (r: ConnectionOpenedEvent)
        ensures
            r@ == self@,
    {
        ConnectionOpenedEvent {
            occurred_at: self.occurred_at,
            endpoint_id: self.endpoint_id.clone(),
            remote_addr: self.remote_addr.clone(),
        }
    }
}

impl View for ConnectionClosedEvent {
    type V = EventView;

    open spec fn view(&self) -> EventView {
        EventView::Closed {
            at: self.occurred_at,
            endpoint_id: self.endpoint_id@,
            remote_addr: self.remote_addr@,
            duration: self.duration,
            bytes_in: self.bytes_in,
            bytes_out: self.bytes_out,
        }
    }
}

impl Clone for ConnectionClosedEvent {
    fn clone(&self) -> (r: ConnectionClosedEvent)
        ensures
            r@ == self@,
    {
        ConnectionClosedEvent {
            occurred_at: self.occurred_at,
            endpoint_id: self.endpoint_id.clone(),
            remote_addr: self.remote_addr.clone(),
            duration: self.duration,
            bytes_in: self.bytes_in,
            bytes_out: self.bytes_out,
        }
    }
}

impl View for HttpRequestCompleteEvent {
    type V = EventView;

    open spec fn view(&self) -> EventView {
        EventView::Http {
            at: self.occurred_at,
            endpoint_id: self.endpoint_id@,
            method: self.method@,
            path: self.path@,
            status_code: self.status_code,
            duration: self.duration,
        }
    }
}

impl Clone for HttpRequestCompleteEvent {
    fn clone(&self) -> (r: HttpRequestCompleteEvent)
        ensures
            r@ == self@,
    {
        HttpRequestCompleteEvent {
            occurred_at: self.occurred_at,
            endpoint_id: self.endpoint_id.clone(),
            method: self.method.clone(),
            path: self.path.clone(),
            status_code: self.status_code,
            duration: self.duration,
        }
    }
}

impl View for Event {
    type V = EventView;

    open spec fn view(&self) -> EventView {
        match self {
            Event::AgentConnectSucceeded(e) => e@,
            Event::AgentDisconnected(e) => e@,
            Event::AgentHeartbeatReceived(e) => e@,
            Event::ConnectionOpened(e) => e@,
            Event::ConnectionClosed(e) => e@,
            Event::HttpRequestComplete(e) => e@,
        }
    }
}

impl Clone for Event {
    fn clone(&self) -> (r: Event)
        ensures
            r@ == self@,
    {
        match self {
            Event::AgentConnectSucceeded(e) => Event::AgentConnectSucceeded(e.clone()),
            Event::AgentDisconnected(e) => Event::AgentDisconnected(e.clone()),
            Event::AgentHeartbeatReceived(e) => Event::AgentHeartbeatReceived(e.clone()),
            Event::ConnectionOpened(e) => Event::ConnectionOpened(e.clone()),
            Event::ConnectionClosed(e) => Event::ConnectionClosed(e.clone()),
            Event::HttpRequestComplete(e) => Event::HttpRequestComplete(e.clone()),
        }
    }
}

/// One call of a handler: who is called, and with which event.
#[derive(Debug)]
pub struct Delivery {
    /// The handler.
    pub handler: HandlerId,
    /// The event it receives.
    pub event: Event,
}

/// Whether `calls` hands `event` to every handler of `handlers` once, in the order of their
/// registration, and makes no other call.
pub open spec fn delivers(calls: Seq<Delivery>, handlers: Seq<HandlerId>, event: EventView) -> bool {
    &&& calls.len() == handlers.len()
    &&& forall|i: int|
        0 <= i < calls.len() ==> (#[trigger] calls[i]).handler == handlers[i] && calls[i].event@
            == event
}

/// The calls that hand an event to all handlers.
pub fn emit_event(handlers: &Vec<HandlerId>, event: Event) -> (r: Vec<Delivery>)
    ensures
        delivers(r@, handlers@, event@),
{
    let mut r: Vec<Delivery> = Vec::new();
    let mut i: usize = 0;
    while i < handlers.len()
        invariant
            0 <= i <= handlers.len(),
            delivers(r@, handlers@.take(i as int), event@),
        decreases handlers.len() - i,
    {
        r.push(Delivery { handler: handlers[i], event: event.clone() });
        i = i + 1;
    }
    assert(handlers@.take(handlers@.len() as int) =~= handlers@);
    r
}

/// Handing out an event calls every handler exactly once, in the order of registration, and nobody
/// else; each receives that event.
pub proof fn every_handler_is_called_once(
    calls: Seq<Delivery>,
    handlers: Seq<HandlerId>,
    event: EventView,
)
    requires
        delivers(calls, handlers, event),
    ensures
        calls.map_values(|c: Delivery| c.handler) == handlers,
        forall|i: int| 0 <= i < calls.len() ==> (#[trigger] calls[i]).event@ == event,
{
    assert(calls.map_values(|c: Delivery| c.handler) =~= handlers);
}

/// What a handler is told of a session: that it was established, that it ended and why, or that a
/// heartbeat was answered and how fast, each with its time and the session.
pub proof fn events_say_what_happened(e: Event)
    ensures
        e@ matches EventView::Connected { at, session } ==> (e matches Event::AgentConnectSucceeded(c)
            && c.occurred_at == at && c.session@ == session),
        e@ matches EventView::Disconnected { at, session, error } ==> (
        e matches Event::AgentDisconnected(d) && d.occurred_at == at && d.session@ == session && (
        match (d.error, error) {
            (Some(t), Some(text)) => t@ == text,
            (None, None) => true,
            _ => false,
        })),
        e@ matches EventView::Heartbeat { at, session, latency } ==> (
        e matches Event::AgentHeartbeatReceived(h) && h.occurred_at == at && h.session@ == session
            && h.latency == latency),
{
}

} // verus!
