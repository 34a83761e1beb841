//! Reconnecting session: dial loop with exponential backoff and automatic re-bind.
//!
//! The loop is a state machine. The application performs the action that the machine asks for
//! and reports how it ended as the next event.
use vstd::prelude::*;

use std::time::{Duration, SystemTime};
use crate::certs;
use crate::certs::accepts_server_name;
use crate::error::{Error, IoError, IoErrorKind};
use crate::events;
use crate::events::{
    emit_event,
    AgentConnectSucceededEvent,
    AgentDisconnectedEvent,
    AgentHeartbeatReceivedEvent,
    Delivery,
    Event,
    EventView,
    HandlerId,
};
use crate::json;
use crate::json::{Json, Member};
use crate::proto::msg::{AuthExtra, AuthExtraView, AuthResp, BindReq, BindReqView, BindResp};
use crate::session::{AgentSession, SessionView};
use crate::text;
use crate::text::text_before;
use crate::time::Span;
use crate::tunnel::raw_session::{ChannelId, RawSession};
use crate::tunnel::routes;
use crate::tunnel::routes::Routes;
use crate::urls;
use crate::urls::{Url, UrlView};

verus! {

/// How long the loop waits after the first failure, in milliseconds.
pub const INITIAL_BACKOFF_MS: u64 = 500;

/// The longest that the loop waits, in milliseconds.
pub const MAX_BACKOFF_MS: u64 = 30_000;

/// Configuration for a bound tunnel, used for re-binding after reconnect.
#[derive(Debug)]
pub struct TunnelConfig {
    /// The bind request to replay.
    pub bind_req: BindReq,
    /// Channel to send accepted proxy streams to.
    pub accept_tx: ChannelId,
}

/// A bound tunnel, as mathematical values.
pub struct TunnelView {
    /// The bind request to replay.
    pub bind_req: BindReqView,
    /// Channel to send accepted proxy streams to.
    pub accept_tx: ChannelId,
}

impl View for TunnelConfig {
    type V = TunnelView;

    open spec fn view(&self) -> TunnelView {
        TunnelView { bind_req: self.bind_req@, accept_tx: self.accept_tx }
    }
}

impl Clone for TunnelConfig {
    fn clone(&self) -> (r: TunnelConfig)
        ensures
            r@ == self@,
    {
        TunnelConfig { bind_req: self.bind_req.clone(), accept_tx: self.accept_tx }
    }
}

/// Some tunnels, as mathematical values.
pub open spec fn tunnel_views(tunnels: Seq<TunnelConfig>) -> Seq<TunnelView> {
    tunnels.map_values(|t: TunnelConfig| t@)
}

/// Copies of some tunnels, in order.
fn copy_tunnels(tunnels: &Vec<TunnelConfig>) -> (r: Vec<TunnelConfig>)
    ensures
        tunnel_views(r@) == tunnel_views(tunnels@),
{
    let mut r: Vec<TunnelConfig> = Vec::new();
    let mut i: usize = 0;
    while i < tunnels.len()
        invariant
            0 <= i <= tunnels.len(),
            r.len() == i,
            forall|j: int| 0 <= j < i ==> (#[trigger] r@[j])@ == tunnels@[j]@,
        decreases tunnels.len() - i,
    {
        r.push(tunnels[i].clone());
        i = i + 1;
    }
    assert(tunnel_views(r@) =~= tunnel_views(tunnels@));
    r
}

/// Dial configuration for connecting to ngrok cloud.
pub struct DialConfig {
    /// The connect address (host:port).
    pub connect_url: String,
    /// The TLS client config.
    pub tls_config: rustls::ClientConfig,
    /// Heartbeat interval.
    pub heartbeat_interval: Span,
    /// Heartbeat tolerance.
    pub heartbeat_tolerance: Span,
}

/// State shared between the reconnect loop and the agent.
pub struct ReconnectInner {
    /// Auth extra to send on each connection.
    pub auth_extra: AuthExtra,
    /// Bound tunnel configs to re-bind on reconnect.
    pub tunnels: Vec<TunnelConfig>,
    /// Tunnel accept channels keyed by endpoint ID.
    pub tunnel_senders: Routes,
    /// RPC handler.
    pub rpc_handler: Option<HandlerId>,
    /// Event handlers.
    pub event_handlers: Vec<HandlerId>,
    /// Session cookie for reconnection.
    pub cookie: String,
    /// The current session info.
    pub session: Option<AgentSession>,
    /// The current raw session for sending bind requests.
    pub raw_session: Option<RawSession>,
    /// Whether the agent has been closed.
    pub closed: bool,
    /// Dial configuration.
    pub dial_config: DialConfig,
    /// Whether a session is established.
    pub connected: bool,
}

/// The shared state, as mathematical values.
pub struct InnerView {
    /// Auth extra to send on each connection.
    pub auth_extra: AuthExtraView,
    /// Bound tunnels, in the order in which they were bound.
    pub tunnels: Seq<TunnelView>,
    /// Tunnel accept channels keyed by endpoint ID.
    pub tunnel_senders: Map<Seq<char>, ChannelId>,
    /// Event handlers.
    pub event_handlers: Seq<HandlerId>,
    /// Session cookie for reconnection.
    pub cookie: Seq<char>,
    /// The current session info.
    pub session: Option<SessionView>,
    /// The current raw session.
    pub raw_session: Option<RawSession>,
    /// Whether the agent has been closed.
    pub closed: bool,
    /// Whether a session is established.
    pub connected: bool,
}

impl View for ReconnectInner {
    type V = InnerView;

    open spec fn view(&self) -> InnerView {
        InnerView {
            auth_extra: self.auth_extra@,
            tunnels: tunnel_views(self.tunnels@),
            tunnel_senders: self.tunnel_senders@,
            event_handlers: self.event_handlers@,
            cookie: self.cookie@,
            session: match self.session {
                Some(s) => Some(s@),
                None => None,
            },
            raw_session: self.raw_session,
            closed: self.closed,
            connected: self.connected,
        }
    }
}

/// Where the reconnect loop stands.
#[derive(Debug, Clone, Copy, PartialEq, Eq, Structural)]
pub enum Phase {
    /// At the top of the loop.
    Top,
    /// A dial is under way.
    Dialing,
    /// A tunnel is being bound again.
    Rebinding,
    /// The accept loop is being started.
    Starting,
    /// The session serves streams.
    Serving,
    /// The loop has ended.
    Stopped,
}

/// A reconnecting session that automatically re-dials and re-binds on failure.
#[derive(Debug)]
pub struct ReconnectingSession {
    /// How long the next wait is, in milliseconds.
    pub backoff_ms: u64,
    /// Where the loop stands.
    pub phase: Phase,
    /// The tunnels that are still to be bound again. The first of them is being bound.
    pub queue: Vec<TunnelConfig>,
}

/// What happened since the loop last asked for an action.
#[derive(Debug)]
pub enum LoopEvent {
    /// The loop was started, or a wait is over.
    Woke,
    /// Dialing or authenticating failed.
    DialFailed,
    /// A session was dialed and authenticated.
    Dialed {
        /// The new session.
        raw: RawSession,
        /// The answer to the authentication request.
        resp: AuthResp,
        /// When the session was established.
        at: SystemTime,
    },
    /// A tunnel was bound again.
    Rebound(BindResp),
    /// A tunnel could not be bound again.
    RebindFailed,
    /// The accept loop was started.
    Started {
        /// When it was.
        at: SystemTime,
    },
    /// The accept loop ended: the session was dropped.
    Ended {
        /// When it was.
        at: SystemTime,
    },
}

/// An event of the loop, as mathematical values.
pub enum LoopEventView {
    /// The loop was started, or a wait is over.
    Woke,
    /// Dialing or authenticating failed.
    DialFailed,
    /// A session was dialed and authenticated.
    Dialed { raw: RawSession, session_id: Seq<char>, cookie: Seq<char>, at: SystemTime },
    /// A tunnel was bound again under this endpoint ID.
    Rebound { endpoint_id: Seq<char> },
    /// A tunnel could not be bound again.
    RebindFailed,
    /// The accept loop was started.
    Started { at: SystemTime },
    /// The accept loop ended.
    Ended { at: SystemTime },
}

impl View for LoopEvent {
    type V = LoopEventView;

    open spec fn view(&self) -> LoopEventView {
        match self {
            LoopEvent::Woke => LoopEventView::Woke,
            LoopEvent::DialFailed => LoopEventView::DialFailed,
            LoopEvent::Dialed { raw, resp, at } => LoopEventView::Dialed {
                raw: *raw,
                session_id: resp.extra.agent_session_id@,
                cookie: resp.extra.cookie@,
                at: *at,
            },
            LoopEvent::Rebound(resp) => LoopEventView::Rebound { endpoint_id: resp.client_id@ },
            LoopEvent::RebindFailed => LoopEventView::RebindFailed,
            LoopEvent::Started { at } => LoopEventView::Started { at: *at },
            LoopEvent::Ended { at } => LoopEventView::Ended { at: *at },
        }
    }
}

/// What the application does next for the loop.
#[derive(Debug)]
pub enum LoopAction {
    /// End the loop, once the events are delivered.
    Stop {
        /// The handlers to call.
        calls: Vec<Delivery>,
    },
    /// Dial and authenticate.
    Dial,
    /// Send this bind request.
    Rebind {
        /// The request.
        request: BindReq,
    },
    /// Start the accept loop with its heartbeat.
    Serve,
    /// Signal that the agent is connected, deliver the events, and wait for the accept loop to
    /// end.
    Wait {
        /// The handlers to call.
        calls: Vec<Delivery>,
    },
    /// Deliver the events, then wait.
    Sleep {
        /// How long to wait, in milliseconds.
        ms: u64,
        /// The handlers to call.
        calls: Vec<Delivery>,
    },
}

/// An action of the loop, as mathematical values. An event goes to every handler that is
/// registered.
pub enum LoopActionView {
    /// End the loop.
    Stop { event: Option<EventView> },
    /// Dial and authenticate.
    Dial,
    /// Send this bind request.
    Rebind { request: BindReqView },
    /// Start the accept loop.
    Serve,
    /// Wait for the accept loop to end.
    Wait { event: EventView },
    /// Wait for a time.
    Sleep { ms: nat, event: Option<EventView> },
}

/// Whether `calls` hands `event` to all handlers, or calls nobody if there is no event.
pub open spec fn delivers_maybe(
    calls: Seq<Delivery>,
    handlers: Seq<HandlerId>,
    event: Option<EventView>,
) -> bool {
    match event {
        Some(e) => events::delivers(calls, handlers, e),
        None => calls.len() == 0,
    }
}

impl LoopAction {
    /// Whether this action is the one that `v` describes, with these handlers registered.
    pub open spec fn is_view(&self, v: LoopActionView, handlers: Seq<HandlerId>) -> bool {
        match (self, v) {
            (LoopAction::Stop { calls }, LoopActionView::Stop { event }) => delivers_maybe(
                calls@,
                handlers,
                event,
            ),
            (LoopAction::Dial, LoopActionView::Dial) => true,
            (LoopAction::Rebind { request }, LoopActionView::Rebind { request: r }) => request@
                == r,
            (LoopAction::Serve, LoopActionView::Serve) => true,
            (LoopAction::Wait { calls }, LoopActionView::Wait { event }) => events::delivers(
                calls@,
                handlers,
                event,
            ),
            (LoopAction::Sleep { ms, calls }, LoopActionView::Sleep { ms: m, event }) => *ms == m
                && delivers_maybe(calls@, handlers, event),
            _ => false,
        }
    }
}

/// The whole state of the machine, as mathematical values.
pub struct LoopView {
    /// Where the loop stands.
    pub phase: Phase,
    /// How long the next wait is, in milliseconds.
    pub backoff_ms: nat,
    /// The tunnels that are still to be bound again. The first of them is being bound.
    pub queue: Seq<TunnelView>,
    /// The shared state.
    pub inner: InnerView,
}

/// The wait that follows a wait of `ms`: twice as long, up to the longest.
pub open spec fn next_backoff(ms: nat) -> nat {
    if 2 * ms <= MAX_BACKOFF_MS {
        2 * ms
    } else {
        MAX_BACKOFF_MS as nat
    }
}

/// The session of a successful dial.
pub open spec fn new_session(session_id: Seq<char>, at: SystemTime) -> SessionView {
    SessionView { id: session_id, warnings: Seq::empty(), started_at: at }
}

/// Whether the event can follow in this phase.
pub open spec fn expects(v: LoopView, e: LoopEventView) -> bool {
    match e {
        LoopEventView::Woke => v.phase is Top,
        LoopEventView::DialFailed => v.phase is Dialing,
        LoopEventView::Dialed { .. } => v.phase is Dialing,
        LoopEventView::Rebound { .. } => v.phase is Rebinding,
        LoopEventView::RebindFailed => v.phase is Rebinding,
        LoopEventView::Started { .. } => v.phase is Starting,
        LoopEventView::Ended { .. } => v.phase is Serving,
    }
}

/// What every state of the machine keeps: the waits stay between the first and the longest; the
/// cookie that is sent is the one that was last received; a session is open from the moment it is
/// dialed until it ends; the agent counts as connected only while its session serves; there are
/// tunnels still to be bound again exactly while one is being bound.
pub open spec fn loop_inv(v: LoopView) -> bool {
    &&& INITIAL_BACKOFF_MS <= v.backoff_ms <= MAX_BACKOFF_MS
    &&& v.inner.auth_extra.cookie == v.inner.cookie
    &&& (v.phase is Rebinding || v.phase is Starting || v.phase is Serving) ==> v.inner.raw_session
        is Some && v.inner.session is Some
    &&& v.inner.connected == (v.phase is Serving)
    &&& (v.phase is Rebinding) == (v.queue.len() > 0)
}

/// Whether the tunnel of a channel is bound and was not closed since.
pub open spec fn is_bound(tunnels: Seq<TunnelView>, channel: ChannelId) -> bool {
    exists|i: int| 0 <= i < tunnels.len() && (#[trigger] tunnels[i]).accept_tx == channel
}

/// The queue from the first tunnel on that was not closed since.
pub open spec fn still_bound(queue: Seq<TunnelView>, tunnels: Seq<TunnelView>) -> Seq<TunnelView>
    decreases queue.len(),
{
    if queue.len() == 0 || is_bound(tunnels, queue[0].accept_tx) {
        queue
    } else {
        still_bound(queue.skip(1), tunnels)
    }
}

/// The state after the next tunnel of a queue was taken up: it is bound again, or the accept loop
/// is started when none is left. Tunnels that were closed are passed over.
pub open spec fn take_up(v: LoopView, queue: Seq<TunnelView>) -> (LoopView, LoopActionView) {
    let left = still_bound(queue, v.inner.tunnels);
    if left.len() > 0 {
        (
            LoopView { phase: Phase::Rebinding, queue: left, ..v },
            LoopActionView::Rebind { request: left[0].bind_req },
        )
    } else {
        (LoopView { phase: Phase::Starting, queue: left, ..v }, LoopActionView::Serve)
    }
}

/// The state after a wait was ordered, and the order.
pub open spec fn back_off(v: LoopView, event: Option<EventView>) -> (LoopView, LoopActionView) {
    (
        LoopView { phase: Phase::Top, backoff_ms: next_backoff(v.backoff_ms), ..v },
        LoopActionView::Sleep { ms: v.backoff_ms, event },
    )
}

/// One step of the loop: the next state and the action.
pub open spec fn loop_step(v: LoopView, e: LoopEventView) -> (LoopView, LoopActionView) {
    match e {
        LoopEventView::Woke => if v.inner.closed {
            (LoopView { phase: Phase::Stopped, ..v }, LoopActionView::Stop { event: None })
        } else {
            (LoopView { phase: Phase::Dialing, ..v }, LoopActionView::Dial)
        },
        LoopEventView::DialFailed => if v.inner.closed {
            (LoopView { phase: Phase::Stopped, ..v }, LoopActionView::Stop { event: None })
        } else {
            back_off(v, None)
        },
        LoopEventView::Dialed { raw, session_id, cookie, at } => {
            let inner = InnerView {
                cookie,
                auth_extra: AuthExtraView { cookie, ..v.inner.auth_extra },
                session: Some(new_session(session_id, at)),
                raw_session: Some(raw),
                ..v.inner
            };
            take_up(
                LoopView { backoff_ms: INITIAL_BACKOFF_MS as nat, inner, ..v },
                inner.tunnels,
            )
        },
        LoopEventView::Rebound { endpoint_id } => {
            let channel = v.queue[0].accept_tx;
            let inner = if is_bound(v.inner.tunnels, channel) {
                InnerView {
                    tunnel_senders: v.inner.tunnel_senders.insert(endpoint_id, channel),
                    ..v.inner
                }
            } else {
                v.inner
            };
            take_up(LoopView { inner, ..v }, v.queue.skip(1))
        },
        LoopEventView::RebindFailed => back_off(LoopView { queue: Seq::empty(), ..v }, None),
        LoopEventView::Started { at } => (
            LoopView {
                phase: Phase::Serving,
                inner: InnerView { connected: true, ..v.inner },
                ..v
            },
            LoopActionView::Wait { event: EventView::Connected { at, session: v.inner.session->0 } },
        ),
        LoopEventView::Ended { at } => {
            let ended = LoopView {
                inner: InnerView { connected: false, raw_session: None, ..v.inner },
                ..v
            };
            if v.inner.closed {
                (LoopView { phase: Phase::Stopped, ..ended }, LoopActionView::Stop { event: None })
            } else {
                back_off(
                    ended,
                    Some(
                        EventView::Disconnected {
                            at,
                            session: v.inner.session->0,
                            error: Some("session dropped"@),
                        },
                    ),
                )
            }
        },
    }
}

impl ReconnectingSession {
    /// The whole state of the machine.
    pub open spec fn state(&self, inner: &ReconnectInner) -> LoopView {
        LoopView {
            phase: self.phase,
            backoff_ms: self.backoff_ms as nat,
            queue: tunnel_views(self.queue@),
            inner: inner@,
        }
    }

    /// Start a new reconnecting session.
    pub fn start() -> (r: ReconnectingSession)
        ensures
            r.phase == Phase::Top,
            r.backoff_ms == INITIAL_BACKOFF_MS,
            r.queue@.len() == 0,
    {
        ReconnectingSession {
            backoff_ms: INITIAL_BACKOFF_MS,
            phase: Phase::Top,
            queue: Vec::new(),
        }
    }

    /// Order a wait, and make the next one longer.
    fn back_off(&mut self, calls: Vec<Delivery>) -> (r: LoopAction)
        requires
            old(self).backoff_ms <= MAX_BACKOFF_MS,
        ensures
            final(self).phase == Phase::Top,
            final(self).backoff_ms == next_backoff(old(self).backoff_ms as nat),
            final(self).queue == old(self).queue,
            r == (LoopAction::Sleep { ms: old(self).backoff_ms, calls }),
    {
        let ms: u64 = self.backoff_ms;
        let doubled: u64 = ms * 2;
        self.backoff_ms = if doubled <= MAX_BACKOFF_MS { doubled } else { MAX_BACKOFF_MS };
        self.phase = Phase::Top;
        LoopAction::Sleep { ms, calls }
    }

    /// Bind the next tunnel of the queue again, or start the accept loop when none is left.
    fn take_up(&mut self, inner: &ReconnectInner) -> (r: LoopAction)
        ensures
            final(self).state(inner) == take_up(
                old(self).state(inner),
                old(self).state(inner).queue,
            ).0,
            r.is_view(
                take_up(old(self).state(inner), old(self).state(inner).queue).1,
                inner.event_handlers@,
            ),
    {
        while self.queue.len() > 0 && !inner.is_bound(self.queue[0].accept_tx)
            invariant
                still_bound(tunnel_views(self.queue@), inner@.tunnels) == still_bound(
                    tunnel_views(old(self).queue@),
                    inner@.tunnels,
                ),
                self.backoff_ms == old(self).backoff_ms,
            decreases self.queue@.len(),
        {
            let ghost before = tunnel_views(self.queue@);
            let _ = self.queue.remove(0);
            assert(tunnel_views(self.queue@) =~= before.skip(1));
        }
        if self.queue.len() > 0 {
            self.phase = Phase::Rebinding;
            LoopAction::Rebind { request: self.queue[0].bind_req.clone() }
        } else {
            self.phase = Phase::Starting;
            LoopAction::Serve
        }
    }

    /// The main reconnect loop: take an event, and say what to do next.
    pub fn reconnect_loop(&mut self, inner: &mut ReconnectInner, event: LoopEvent) -> (r: LoopAction)
        requires
            expects(old(self).state(old(inner)), event@),
            loop_inv(old(self).state(old(inner))),
        ensures
            final(self).state(final(inner)) == loop_step(old(self).state(old(inner)), event@).0,
            r.is_view(
                loop_step(old(self).state(old(inner)), event@).1,
                old(inner).event_handlers@,
            ),
            loop_inv(final(self).state(final(inner))),
            final(inner).event_handlers == old(inner).event_handlers,
            final(inner).rpc_handler == old(inner).rpc_handler,
            final(inner).dial_config == old(inner).dial_config,
    {
        match event {
            LoopEvent::Woke => {
                if inner.closed {
                    self.phase = Phase::Stopped;
                    LoopAction::Stop { calls: Vec::new() }
                } else {
                    self.phase = Phase::Dialing;
                    LoopAction::Dial
                }
            },
            LoopEvent::DialFailed => {
                if inner.closed {
                    self.phase = Phase::Stopped;
                    LoopAction::Stop { calls: Vec::new() }
                } else {
                    self.back_off(Vec::new())
                }
            },
            LoopEvent::Dialed { raw, resp, at } => {
                self.backoff_ms = INITIAL_BACKOFF_MS;
                inner.cookie = resp.extra.cookie.clone();
                inner.auth_extra.cookie = resp.extra.cookie.clone();
                let session = AgentSession {
                    id: resp.extra.agent_session_id.clone(),
                    warnings: Vec::new(),
                    started_at: at,
                };
                assert(session.warnings.deep_view() =~= Seq::<Seq<char>>::empty());
                inner.session = Some(session);
                inner.raw_session = Some(raw);
                self.queue = copy_tunnels(&inner.tunnels);
                self.take_up(inner)
            },
            LoopEvent::Rebound(resp) => {
                let ghost before = tunnel_views(self.queue@);
                let bound: TunnelConfig = self.queue.remove(0);
                assert(tunnel_views(self.queue@) =~= before.skip(1));
                if inner.is_bound(bound.accept_tx) {
                    inner.tunnel_senders.insert(resp.client_id, bound.accept_tx);
                }
                self.take_up(inner)
            },
            LoopEvent::RebindFailed => {
                self.queue = Vec::new();
                assert(tunnel_views(self.queue@) =~= Seq::<TunnelView>::empty());
                self.back_off(Vec::new())
            },
            LoopEvent::Started { at } => {
                self.phase = Phase::Serving;
                inner.connected = true;
                let calls: Vec<Delivery> = match &inner.session {
                    Some(session) => emit_event(
                        &inner.event_handlers,
                        Event::AgentConnectSucceeded(
                            AgentConnectSucceededEvent { occurred_at: at, session: session.clone() },
                        ),
                    ),
                    None => Vec::new(),
                };
                LoopAction::Wait { calls }
            },
            LoopEvent::Ended { at } => {
                inner.connected = false;
                inner.raw_session = None;
                if inner.closed {
                    self.phase = Phase::Stopped;
                    LoopAction::Stop { calls: Vec::new() }
                } else {
                    let calls: Vec<Delivery> = match &inner.session {
                        Some(session) => emit_event(
                            &inner.event_handlers,
                            Event::AgentDisconnected(
                                AgentDisconnectedEvent {
                                    occurred_at: at,
                                    session: session.clone(),
                                    error: Some("session dropped".to_owned()),
                                },
                            ),
                        ),
                        None => Vec::new(),
                    };
                    self.back_off(calls)
                }
            },
        }
    }
}

/// The bind request to replay after a bind was answered with a URL: the assigned host is put in
/// place of the requested one, so that a re-bind gets the same URL.
pub open spec fn remembered(req: BindReqView, assigned: Option<UrlView>) -> BindReqView {
    match assigned {
        Some(UrlView { host: Some(host), .. }) if req.has_opts => BindReqView {
            opts: req.opts.insert("Hostname"@, Json::Text(host)),
            ..req
        },
        _ => req,
    }
}

/// The shared state after a tunnel was bound under `endpoint_id`.
pub open spec fn with_tunnel(
    v: InnerView,
    config: TunnelView,
    endpoint_id: Seq<char>,
    assigned: Option<UrlView>,
) -> InnerView {
    InnerView {
        tunnels: v.tunnels.push(
            TunnelView { bind_req: remembered(config.bind_req, assigned), ..config },
        ),
        tunnel_senders: v.tunnel_senders.insert(endpoint_id, config.accept_tx),
        ..v
    }
}

/// The shared state after the tunnel of a channel was closed: no ID leads to the channel, and the
/// tunnel is not bound again.
pub open spec fn without_tunnel(v: InnerView, channel: ChannelId) -> InnerView {
    InnerView {
        tunnels: v.tunnels.filter(|t: TunnelView| t.accept_tx != channel),
        tunnel_senders: routes::without_channel(v.tunnel_senders, channel),
        ..v
    }
}

/// Whether the tunnel of a channel is closed: no ID leads to it, and it is not bound again.
pub open spec fn is_closed(v: InnerView, channel: ChannelId) -> bool {
    &&& forall|id: Seq<char>| #[trigger]
        v.tunnel_senders.contains_key(id) ==> v.tunnel_senders[id] != channel
    &&& !is_bound(v.tunnels, channel)
}

impl ReconnectInner {
    /// Whether the tunnel of a channel is bound and was not closed since.
    pub fn is_bound(&self, channel: ChannelId) -> (r: bool)
        ensures
            r == is_bound(self@.tunnels, channel),
    {
        let mut i: usize = 0;
        while i < self.tunnels.len()
            invariant
                0 <= i <= self.tunnels.len(),
                forall|j: int| 0 <= j < i ==> (#[trigger] self@.tunnels[j]).accept_tx != channel,
            decreases self.tunnels.len() - i,
        {
            if self.tunnels[i].accept_tx == channel {
                assert(self@.tunnels[i as int].accept_tx == channel);
                return true;
            }
            i = i + 1;
        }
        false
    }

    /// Close the tunnel of a channel.
    pub fn close(&mut self, channel: ChannelId)
        ensures
            final(self)@ == without_tunnel(old(self)@, channel),
            final(self).event_handlers == old(self).event_handlers,
            final(self).rpc_handler == old(self).rpc_handler,
            final(self).dial_config == old(self).dial_config,
    {
        let ghost keep = |t: TunnelView| t.accept_tx != channel;
        let ghost all = self@.tunnels;
        let mut open: Vec<TunnelConfig> = Vec::new();
        let mut i: usize = 0;
        assert(all.take(0).filter(keep) =~= Seq::<TunnelView>::empty()) by {
            reveal(Seq::filter);
        }
        assert(tunnel_views(open@) =~= Seq::<TunnelView>::empty());
        while i < self.tunnels.len()
            invariant
                0 <= i <= self.tunnels.len(),
                *self == *old(self),
                all == self@.tunnels,
                keep == (|t: TunnelView| t.accept_tx != channel),
                tunnel_views(open@) == all.take(i as int).filter(keep),
            decreases self.tunnels.len() - i,
        {
            let ghost before = tunnel_views(open@);
            proof {
                reveal(Seq::filter);
                assert(all.take(i + 1).drop_last() =~= all.take(i as int));
                assert(all.take(i + 1).last() == self.tunnels@[i as int]@);
            }
            if self.tunnels[i].accept_tx != channel {
                let kept: TunnelConfig = self.tunnels[i].clone();
                open.push(kept);
                assert(tunnel_views(open@) =~= before.push(kept@));
            }
            i = i + 1;
        }
        assert(all.take(all.len() as int) =~= all);
        self.tunnels = open;
        self.tunnel_senders.close(channel);
    }

    /// What to send for a bind, and over which session: an agent without a session cannot bind.
    pub fn do_bind(&self, config: &TunnelConfig) -> (r: Result<(RawSession, BindReq), Error>)
        ensures
            match self.raw_session {
                Some(raw) => r is Ok && r->Ok_0.0 == raw && r->Ok_0.1@ == config.bind_req@,
                None => r == Err::<(RawSession, BindReq), Error>(Error::NotConnected),
            },
    {
        match self.raw_session {
            Some(raw) => Ok((raw, config.bind_req.clone())),
            None => Err(Error::NotConnected),
        }
    }

    /// Register a tunnel that was bound at the given URL, if the answer held one.
    pub fn bind_at(&mut self, config: TunnelConfig, resp: &BindResp, assigned: Option<Url>)
        ensures
            final(self)@ == with_tunnel(
                old(self)@,
                config@,
                resp.client_id@,
                match assigned {
                    Some(url) => Some(url@),
                    None => None,
                },
            ),
            final(self).event_handlers == old(self).event_handlers,
            final(self).rpc_handler == old(self).rpc_handler,
            final(self).dial_config == old(self).dial_config,
    {
        let mut config = config;
        if let Some(url) = &assigned {
            if let Some(host) = url.host_str() {
                json::set_member(
                    &mut config.bind_req.opts,
                    "Hostname",
                    Member::Text(host.to_owned()),
                );
            }
        }
        self.tunnel_senders.insert(resp.client_id.clone(), config.accept_tx);
        self.tunnels.push(config);
        assert(self@.tunnels =~= old(self)@.tunnels.push(config@));
    }
}

impl ReconnectingSession {
    /// Bind a new tunnel, by the answer to its bind request, and register it for routing and for
    /// re-binding. A refused tunnel is not registered.
    pub fn bind(inner: &mut ReconnectInner, config: TunnelConfig, reply: BindResp) -> (r: Result<
        BindResp,
        Error,
    >)
        ensures
            if reply.error@.len() > 0 {
                &&& *final(inner) == *old(inner)
                &&& r matches Err(Error::Cloud { code, message })
                &&& code@ == Seq::<char>::empty()
                &&& message@ == reply.error@
            } else {
                &&& r == Ok::<BindResp, Error>(reply)
                &&& final(inner)@ == with_tunnel(
                    old(inner)@,
                    config@,
                    reply.client_id@,
                    urls::url_parse(reply.url@).ok(),
                )
            },
            final(inner).event_handlers == old(inner).event_handlers,
            final(inner).rpc_handler == old(inner).rpc_handler,
            final(inner).dial_config == old(inner).dial_config,
    {
        let resp: BindResp = match RawSession::bind(reply) {
            Ok(resp) => resp,
            Err(e) => return Err(e),
        };
        let assigned: Option<Url> = match Url::parse(resp.url.as_str()) {
            Ok(url) => Some(url),
            Err(_) => None,
        };
        inner.bind_at(config, &resp, assigned);
        Ok(resp)
    }
}

/// How far a dial came.
#[derive(Debug)]
pub enum Dial {
    /// The TCP connection failed.
    TcpFailed(IoError),
    /// The TLS handshake failed with this message.
    TlsFailed(String),
    /// The authentication request could not be exchanged.
    ExchangeFailed(Error),
    /// The authentication request was answered over a new session.
    Answered {
        /// The session.
        raw: RawSession,
        /// The answer.
        resp: AuthResp,
    },
}

/// Dial and authenticate to ngrok cloud, by how far it came.
pub fn dial_and_auth(dial: Dial) -> (r: Result<(RawSession, AuthResp), Error>)
    ensures
        match dial {
            Dial::TcpFailed(e) => r is Err && r->Err_0 == Error::Io(e),
            Dial::TlsFailed(e) => r matches Err(Error::Io(io)) && io.kind == IoErrorKind::Other
                && io.message@ == e@,
            Dial::ExchangeFailed(e) => r is Err && r->Err_0 == e,
            Dial::Answered { raw, resp } => if resp.error@.len() == 0 {
                r == Ok::<(RawSession, AuthResp), Error>((raw, resp))
            } else {
                r matches Err(Error::Cloud { code, message }) && code@ == Seq::<char>::empty()
                    && message@ == resp.error@
            },
        },
{
    match dial {
        Dial::TcpFailed(e) => Err(Error::Io(e)),
        Dial::TlsFailed(e) => Err(Error::Io(IoError::other(e.as_str()))),
        Dial::ExchangeFailed(e) => Err(e),
        Dial::Answered { raw, resp } => match RawSession::auth(resp) {
            Ok(resp) => Ok((raw, resp)),
            Err(e) => Err(e),
        },
    }
}

impl DialConfig {
    /// The name that the server must have: the connect address up to the first colon. An address
    /// without one cannot be dialed.
    pub fn server_name(&self) -> (r: Result<String, Error>)
        ensures
            named(r, self.connect_url@, certs::is_server_name(
                text::before_first(self.connect_url@, ':'),
            )),
    {
        let accepted: bool = accepts_server_name(text_before(self.connect_url.as_str(), ':'));
        self.server_name_if(accepted)
    }

    /// The name that the server must have, given whether the host of the connect address is a
    /// server name.
    pub fn server_name_if(&self, accepted: bool) -> (r: Result<String, Error>)
        ensures
            named(r, self.connect_url@, accepted),
    {
        if accepted {
            Ok(text_before(self.connect_url.as_str(), ':').to_owned())
        } else {
            Err(Error::Io(IoError::other("invalid server name")))
        }
    }
}

/// Whether `r` is the name of the server at an address, or the error where that is no server
/// name.
pub open spec fn named(r: Result<String, Error>, connect_url: Seq<char>, accepted: bool) -> bool {
    if accepted {
        r is Ok && r->Ok_0@ == text::before_first(connect_url, ':')
    } else {
        r matches Err(Error::Io(e)) && e.kind == IoErrorKind::Other && e.message@
            == "invalid server name"@
    }
}

/// The calls that report a heartbeat of a session to all handlers.
pub fn heartbeat_received(
    handlers: &Vec<HandlerId>,
    session: &AgentSession,
    latency: Duration,
    at: SystemTime,
) -> (r: Vec<Delivery>)
    ensures
        events::delivers(r@, handlers@, (EventView::Heartbeat { at, session: session@, latency })),
{
    emit_event(
        handlers,
        Event::AgentHeartbeatReceived(
            AgentHeartbeatReceivedEvent { occurred_at: at, session: session.clone(), latency },
        ),
    )
}

/// Every step keeps what every state keeps, and so do binding a tunnel, closing one, and closing
/// the agent.
pub proof fn loop_keeps_its_invariant(
    v: LoopView,
    e: LoopEventView,
    config: TunnelView,
    endpoint_id: Seq<char>,
    assigned: Option<UrlView>,
)
    requires
        loop_inv(v),
    ensures
        expects(v, e) ==> loop_inv(loop_step(v, e).0),
        loop_inv(LoopView { inner: with_tunnel(v.inner, config, endpoint_id, assigned), ..v }),
        loop_inv(LoopView { inner: without_tunnel(v.inner, config.accept_tx), ..v }),
        loop_inv(LoopView { inner: InnerView { closed: true, ..v.inner }, ..v }),
{
}

/// A closed agent stays closed and never dials again: the next time that the loop comes around,
/// it stops.
pub proof fn closed_agent_never_dials(v: LoopView, e: LoopEventView)
    requires
        v.inner.closed,
        expects(v, e),
    ensures
        loop_step(v, e).0.inner.closed,
        !(loop_step(v, e).1 is Dial),
        e is Woke || e is DialFailed || e is Ended ==> loop_step(v, e).1 == (LoopActionView::Stop {
            event: None,
        }) && loop_step(v, e).0.phase is Stopped,
{
}

/// An agent that is not closed always dials again: whatever fails or ends, it waits and then comes
/// around to the next dial.
pub proof fn open_agent_dials_again(v: LoopView, e: LoopEventView)
    requires
        !v.inner.closed,
        expects(v, e),
        e is DialFailed || e is RebindFailed || e is Ended,
    ensures
        ({
            let (next, action) = loop_step(v, e);
            &&& action is Sleep
            &&& action->ms == v.backoff_ms
            &&& expects(next, LoopEventView::Woke)
            &&& loop_step(next, LoopEventView::Woke).1 is Dial
        }),
{
}

/// No step drops a tunnel or a route: what an endpoint ID led to before a step, some channel is
/// still reached by it, and a step that binds nothing changes no route.
pub proof fn steps_keep_tunnels_and_routes(v: LoopView, e: LoopEventView)
    requires
        expects(v, e),
    ensures
        loop_step(v, e).0.inner.tunnels == v.inner.tunnels,
        v.inner.tunnel_senders.dom().subset_of(loop_step(v, e).0.inner.tunnel_senders.dom()),
        !(e is Rebound) ==> loop_step(v, e).0.inner.tunnel_senders == v.inner.tunnel_senders,
{
}

/// A session changes only when a dial succeeds. So the event that reports the end of a session
/// names the session whose start was reported.
pub proof fn only_a_dial_changes_the_session(v: LoopView, e: LoopEventView)
    requires
        expects(v, e),
    ensures
        !(e is Dialed) ==> loop_step(v, e).0.inner.session == v.inner.session,
        e matches LoopEventView::Dialed { raw, session_id, cookie, at } ==> loop_step(
            v,
            e,
        ).0.inner.session == Some(new_session(session_id, at)),
        e matches LoopEventView::Started { at } ==> loop_step(v, e).1 == (LoopActionView::Wait {
            event: EventView::Connected { at, session: v.inner.session->0 },
        }),
        e matches LoopEventView::Ended { at } ==> !v.inner.closed ==> loop_step(v, e).1 == (
        LoopActionView::Sleep {
            ms: v.backoff_ms,
            event: Some(
                EventView::Disconnected {
                    at,
                    session: v.inner.session->0,
                    error: Some("session dropped"@),
                },
            ),
        }),
{
}

/// The cookie of the last session is the one that the next authentication sends.
pub proof fn last_cookie_is_sent(v: LoopView, e: LoopEventView)
    requires
        expects(v, e),
        v.inner.auth_extra.cookie == v.inner.cookie,
    ensures
        loop_step(v, e).0.inner.auth_extra == (AuthExtraView {
            cookie: loop_step(v, e).0.inner.cookie,
            ..v.inner.auth_extra
        }),
        loop_step(v, e).0.inner.cookie == match e {
            LoopEventView::Dialed { cookie, .. } => cookie,
            _ => v.inner.cookie,
        },
{
}

/// The state after `n` rounds in which the dial failed.
pub open spec fn after_failures(v: LoopView, n: nat) -> LoopView
    decreases n,
{
    if n == 0 {
        v
    } else {
        let before = after_failures(v, (n - 1) as nat);
        loop_step(loop_step(before, LoopEventView::Woke).0, LoopEventView::DialFailed).0
    }
}

/// Exponential backoff: after `n` failed dials in a row, the wait after the next failure is
/// twice as long as the one before, `500 * 2^n` milliseconds, but never longer than 30 seconds.
pub proof fn backoff_is_exponential(v: LoopView, n: nat)
    requires
        v.phase is Top,
        !v.inner.closed,
        v.backoff_ms == INITIAL_BACKOFF_MS,
    ensures
        after_failures(v, n) == (LoopView {
            backoff_ms: after_failures(v, n).backoff_ms,
            ..v
        }),
        after_failures(v, n).backoff_ms == (if 500 * vstd::arithmetic::power2::pow2(n) <= 30_000 {
            500 * vstd::arithmetic::power2::pow2(n)
        } else {
            30_000
        }),
        loop_step(
            loop_step(after_failures(v, n), LoopEventView::Woke).0,
            LoopEventView::DialFailed,
        ).1 == (LoopActionView::Sleep { ms: after_failures(v, n).backoff_ms, event: None }),
    decreases n,
{
    if n == 0 {
        vstd::arithmetic::power2::lemma2_to64();
    } else {
        backoff_is_exponential(v, (n - 1) as nat);
        vstd::arithmetic::power2::lemma_pow2_unfold(n);
    }
}

/// A successful dial ends the backoff.
pub proof fn success_resets_the_backoff(v: LoopView, e: LoopEventView)
    requires
        expects(v, e),
        e is Dialed,
    ensures
        loop_step(v, e).0.backoff_ms == INITIAL_BACKOFF_MS,
{
}

/// The state after tunnels were bound again, one for each endpoint ID.
pub open spec fn after_rebinds(v: LoopView, ids: Seq<Seq<char>>) -> LoopView
    decreases ids.len(),
{
    if ids.len() == 0 {
        v
    } else {
        loop_step(
            after_rebinds(v, ids.drop_last()),
            LoopEventView::Rebound { endpoint_id: ids.last() },
        ).0
    }
}

/// After a dial every registered tunnel is bound again with the request that was remembered for
/// it, in the order of registration, and only then does the session serve; each endpoint ID that
/// was answered then leads to the channel of its tunnel (the last one, if an ID is given twice).
pub proof fn reconnect_rebinds_every_tunnel(v: LoopView, e: LoopEventView, ids: Seq<Seq<char>>)
    requires
        expects(v, e),
        e is Dialed,
        ids.len() <= v.inner.tunnels.len(),
    ensures
        ({
            let n = v.inner.tunnels.len();
            let k = ids.len();
            let dialed = loop_step(v, e);
            let s = after_rebinds(dialed.0, ids);
            &&& s.inner.tunnels == v.inner.tunnels
            &&& s.queue == v.inner.tunnels.skip(k as int)
            &&& s.phase == (if k < n {
                Phase::Rebinding
            } else {
                Phase::Starting
            })
            &&& k == 0 < n ==> dialed.1 == (LoopActionView::Rebind {
                request: v.inner.tunnels[0].bind_req,
            })
            &&& k == 0 == n ==> dialed.1 == LoopActionView::Serve
            &&& 0 < k ==> loop_step(
                after_rebinds(dialed.0, ids.drop_last()),
                LoopEventView::Rebound { endpoint_id: ids.last() },
            ).1 == (if k < n {
                LoopActionView::Rebind { request: v.inner.tunnels[k as int].bind_req }
            } else {
                LoopActionView::Serve
            })
            &&& forall|i: int|
                0 <= i < k && (forall|j: int| i < j < k ==> ids[j] != ids[i])
                    ==> s.inner.tunnel_senders.contains_key(#[trigger] ids[i])
                    && s.inner.tunnel_senders[ids[i]] == v.inner.tunnels[i].accept_tx
        }),
    decreases ids.len(),
{
    let tunnels = v.inner.tunnels;
    let n = tunnels.len();
    let k = ids.len();
    if k < n {
        assert(is_bound(tunnels, tunnels[k as int].accept_tx));
    }
    assert(still_bound(tunnels.skip(k as int), tunnels) == tunnels.skip(k as int));
    if k == 0 {
        assert(tunnels.skip(0) =~= tunnels);
    } else {
        let front = ids.drop_last();
        reconnect_rebinds_every_tunnel(v, e, front);
        let s0 = after_rebinds(loop_step(v, e).0, front);
        let s = after_rebinds(loop_step(v, e).0, ids);
        assert(is_bound(tunnels, tunnels[k - 1].accept_tx));
        assert(s0.queue.skip(1) =~= tunnels.skip(k as int));
        assert(s.inner.tunnel_senders == s0.inner.tunnel_senders.insert(
            ids.last(),
            tunnels[k - 1].accept_tx,
        ));
        assert forall|i: int|
            0 <= i < k && (forall|j: int| i < j < k ==> ids[j] != ids[i]) implies {
            &&& s.inner.tunnel_senders.contains_key(#[trigger] ids[i])
            &&& s.inner.tunnel_senders[ids[i]] == tunnels[i].accept_tx
        } by {
            if i < k - 1 {
                assert(ids[k - 1] != ids[i]);
                assert(front[i] == ids[i]);
                assert forall|j: int| i < j < k - 1 implies front[j] != front[i] by {
                    assert(ids[j] != ids[i]);
                }
            }
        }
    }
}

/// Closing a tunnel is final: once it is closed no ID leads to its channel and it is not
/// registered; no step of the loop changes that, nor does binding or closing another tunnel; and
/// a tunnel that is taken up to be bound again is never that of the closed channel.
pub proof fn closed_tunnel_stays_closed(
    v: LoopView,
    e: LoopEventView,
    channel: ChannelId,
    other: TunnelView,
    endpoint_id: Seq<char>,
    assigned: Option<UrlView>,
)
    requires
        other.accept_tx != channel,
    ensures
        is_closed(without_tunnel(v.inner, channel), channel),
        is_closed(v.inner, channel) ==> {
            &&& expects(v, e) ==> is_closed(loop_step(v, e).0.inner, channel)
            &&& expects(v, e) && loop_step(v, e).1 is Rebind
                ==> loop_step(v, e).0.queue[0].accept_tx != channel && loop_step(v, e).1 == (
            LoopActionView::Rebind { request: loop_step(v, e).0.queue[0].bind_req })
            &&& is_closed(with_tunnel(v.inner, other, endpoint_id, assigned), channel)
            &&& is_closed(without_tunnel(v.inner, other.accept_tx), channel)
        },
{
    let closed = without_tunnel(v.inner, channel);
    lemma_filtered(v.inner.tunnels, channel);
    if is_closed(v.inner, channel) {
        lemma_filtered(v.inner.tunnels, other.accept_tx);
        let bound = with_tunnel(v.inner, other, endpoint_id, assigned);
        assert forall|i: int| 0 <= i < bound.tunnels.len() implies (
        #[trigger] bound.tunnels[i]).accept_tx != channel by {
            if i < v.inner.tunnels.len() {
                assert(bound.tunnels[i] == v.inner.tunnels[i]);
            }
        }
        lemma_still_bound_head(v.queue.skip(1), v.inner.tunnels);
        lemma_still_bound_head(v.inner.tunnels, v.inner.tunnels);
    }
}

/// Closing one tunnel keeps every other one, in order, and their routes.
pub proof fn closing_keeps_the_other_tunnels(v: InnerView, channel: ChannelId, other: ChannelId)
    requires
        other != channel,
    ensures
        is_bound(without_tunnel(v, channel).tunnels, other) == is_bound(v.tunnels, other),
        forall|id: Seq<char>|
            v.tunnel_senders.contains_key(id) && v.tunnel_senders[id] == other
                ==> #[trigger] without_tunnel(v, channel).tunnel_senders.contains_key(id)
                && without_tunnel(v, channel).tunnel_senders[id] == other,
        is_closed(v, channel) ==> without_tunnel(v, channel) == v,
{
    lemma_filtered(v.tunnels, channel);
    if is_closed(v, channel) {
        assert(without_tunnel(v, channel).tunnel_senders =~= v.tunnel_senders);
    }
}

/// Closing a tunnel undoes binding it, over a channel of its own and under an ID that led nowhere.
pub proof fn closing_undoes_binding(
    v: InnerView,
    config: TunnelView,
    endpoint_id: Seq<char>,
    assigned: Option<UrlView>,
)
    requires
        is_closed(v, config.accept_tx),
        !v.tunnel_senders.contains_key(endpoint_id),
    ensures
        without_tunnel(with_tunnel(v, config, endpoint_id, assigned), config.accept_tx) == v,
{
    let channel = config.accept_tx;
    let bound = with_tunnel(v, config, endpoint_id, assigned);
    let after = without_tunnel(bound, channel);
    lemma_filtered(v.tunnels, channel);
    reveal(Seq::filter);
    assert(bound.tunnels.drop_last() =~= v.tunnels);
    assert(after.tunnels == v.tunnels);
    assert(after.tunnel_senders =~= v.tunnel_senders);
}

/// What filtering out a channel leaves.
proof fn lemma_filtered(tunnels: Seq<TunnelView>, channel: ChannelId)
    ensures
        ({
            let kept = tunnels.filter(|t: TunnelView| t.accept_tx != channel);
            &&& !is_bound(kept, channel)
            &&& forall|c: ChannelId| c != channel ==> is_bound(kept, c) == #[trigger] is_bound(
                tunnels,
                c,
            )
            &&& !is_bound(tunnels, channel) ==> kept == tunnels
        }),
    decreases tunnels.len(),
{
    let keep = |t: TunnelView| t.accept_tx != channel;
    let kept = tunnels.filter(keep);
    reveal(Seq::filter);
    if tunnels.len() > 0 {
        let front = tunnels.drop_last();
        let last = tunnels.last();
        lemma_filtered(front, channel);
        let rest = front.filter(keep);
        assert(tunnels =~= front.push(last));
        lemma_bound_push(front, last);
        lemma_bound_push(rest, last);
        if !is_bound(tunnels, channel) {
            assert(kept =~= tunnels);
        }
    } else {
        assert(kept =~= tunnels);
    }
}

/// Which channels are bound after one more tunnel.
proof fn lemma_bound_push(tunnels: Seq<TunnelView>, t: TunnelView)
    ensures
        forall|c: ChannelId| #[trigger]
            is_bound(tunnels.push(t), c) == (is_bound(tunnels, c) || t.accept_tx == c),
{
    assert forall|c: ChannelId| #[trigger]
        is_bound(tunnels.push(t), c) == (is_bound(tunnels, c) || t.accept_tx == c) by {
        let more = tunnels.push(t);
        if is_bound(tunnels, c) {
            let i = choose|i: int|
                0 <= i < tunnels.len() && (#[trigger] tunnels[i]).accept_tx == c;
            assert(more[i].accept_tx == c);
        }
        if t.accept_tx == c {
            assert(more[tunnels.len() as int].accept_tx == c);
        }
        if is_bound(more, c) && t.accept_tx != c {
            let i = choose|i: int| 0 <= i < more.len() && (#[trigger] more[i]).accept_tx == c;
            assert(tunnels[i].accept_tx == c);
        }
    }
}

/// The first tunnel that is left of a queue was not closed.
proof fn lemma_still_bound_head(queue: Seq<TunnelView>, tunnels: Seq<TunnelView>)
    ensures
        still_bound(queue, tunnels).len() > 0 ==> is_bound(
            tunnels,
            still_bound(queue, tunnels)[0].accept_tx,
        ),
    decreases queue.len(),
{
    if queue.len() > 0 && !is_bound(tunnels, queue[0].accept_tx) {
        lemma_still_bound_head(queue.skip(1), tunnels);
    }
}

/// A tunnel that was bound receives the connections of its endpoint ID at once, and asks for the
/// assigned host whenever it is bound again.
pub proof fn bound_tunnel_is_routed_and_keeps_its_host(
    v: InnerView,
    config: TunnelView,
    endpoint_id: Seq<char>,
    assigned: UrlView,
)
    requires
        config.bind_req.has_opts,
        assigned.host is Some,
    ensures
        ({
            let after = with_tunnel(v, config, endpoint_id, Some(assigned));
            let again = after.tunnels.last().bind_req;
            &&& after.tunnel_senders.contains_key(endpoint_id)
            &&& after.tunnel_senders[endpoint_id] == config.accept_tx
            &&& after.tunnels.drop_last() == v.tunnels
            &&& again.opts["Hostname"@] == Json::Text(assigned.host->0)
            &&& again.proto == config.bind_req.proto
            &&& forall|key: Seq<char>|
                key != "Hostname"@ && config.bind_req.opts.contains_key(key)
                    ==> again.opts.contains_key(key) && #[trigger] again.opts[key]
                    == config.bind_req.opts[key]
        }),
{
    let after = with_tunnel(v, config, endpoint_id, Some(assigned));
    assert(after.tunnels.drop_last() =~= v.tunnels);
}

/// Whatever is bound is bound over the session that was dialed last, and only while that has not
/// ended: a successful dial makes its session the one for binds, whatever was there before; the end
/// of the session leaves none, whatever tunnels are registered; nothing else changes it.
pub proof fn binds_go_over_the_session_dialed_last(v: LoopView, e: LoopEvent)
    ensures
        ({
            let over = loop_step(v, e@).0.inner.raw_session;
            match e {
                LoopEvent::Dialed { raw, .. } => over == Some(raw),
                LoopEvent::Ended { .. } => over is None,
                _ => over == v.inner.raw_session,
            }
        }),
{
}

/// A session is described by what its dial was answered: the ID and the cookie of the answer, no
/// warnings, and the time of the dial. Nothing but a dial changes the description or the cookie, and
/// the cookie that is sent is the one that was received last; nothing else that is sent changes.
pub proof fn session_is_that_of_the_answer(v: LoopView, e: LoopEvent)
    ensures
        ({
            let next = loop_step(v, e@).0.inner;
            let sent = next.auth_extra;
            match e {
                LoopEvent::Dialed { raw, resp, at } => {
                    &&& next.session is Some
                    &&& next.session->0.id == resp.extra.agent_session_id@
                    &&& next.session->0.warnings.len() == 0
                    &&& next.session->0.started_at == at
                    &&& next.cookie == resp.extra.cookie@
                    &&& sent.cookie == resp.extra.cookie@
                },
                _ => next.session == v.inner.session && next.cookie == v.inner.cookie
                    && sent.cookie == v.inner.auth_extra.cookie,
            }
        }),
        ({
            let sent = loop_step(v, e@).0.inner.auth_extra;
            let was = v.inner.auth_extra;
            &&& sent.authtoken == was.authtoken && sent.os == was.os && sent.arch == was.arch
            &&& sent.version == was.version && sent.hostname == was.hostname
            &&& sent.user_agent == was.user_agent && sent.metadata == was.metadata
            &&& sent.heartbeat_interval_ms == was.heartbeat_interval_ms
            &&& sent.heartbeat_tolerance_ms == was.heartbeat_tolerance_ms
            &&& sent.stop_unsupported_error == was.stop_unsupported_error
            &&& sent.restart_unsupported_error == was.restart_unsupported_error
            &&& sent.update_unsupported_error == was.update_unsupported_error
        }),
{
}

/// The agent counts as connected from the start of its accept loop until that ends. No event opens a
/// closed agent or closes an open one, and none changes who handles events.
pub proof fn agent_is_connected_while_it_serves(v: LoopView, e: LoopEvent)
    ensures
        ({
            let next = loop_step(v, e@).0.inner;
            &&& match e {
                LoopEvent::Started { .. } => next.connected,
                LoopEvent::Ended { .. } => !next.connected,
                _ => next.connected == v.inner.connected,
            }
            &&& next.closed == v.inner.closed
            &&& next.event_handlers == v.inner.event_handlers
            &&& next.tunnels == v.inner.tunnels
        }),
{
}

/// What can happen next is how the action that was ordered can end: a dial succeeds or fails, a bind
/// is answered or fails, the accept loop starts, a session ends, a wait is over. After the loop has
/// stopped nothing happens.
pub proof fn only_the_ordered_action_ends(v: LoopView, e: LoopEventView, next: LoopEventView)
    ensures
        expects(loop_step(v, e).0, next) == match loop_step(v, e).1 {
            LoopActionView::Dial => next is Dialed || next is DialFailed,
            LoopActionView::Rebind { .. } => next is Rebound || next is RebindFailed,
            LoopActionView::Serve => next is Started,
            LoopActionView::Wait { .. } => next is Ended,
            LoopActionView::Sleep { .. } => next is Woke,
            LoopActionView::Stop { .. } => false,
        },
{
}

/// What each event leads to. An open agent dials when it wakes, and waits after a failure or the end
/// of its session; a closed one stops then, but a failed re-bind lets it come around once more. A
/// dial or a re-bind leads to the next re-bind or to the accept loop, whose start leads to waiting
/// for its end.
pub proof fn every_event_is_answered(v: LoopView, e: LoopEvent)
    ensures
        match e {
            LoopEvent::Woke => if v.inner.closed {
                loop_step(v, e@).1 is Stop
            } else {
                loop_step(v, e@).1 is Dial
            },
            LoopEvent::DialFailed => if v.inner.closed {
                loop_step(v, e@).1 is Stop
            } else {
                loop_step(v, e@).1 is Sleep
            },
            LoopEvent::Ended { .. } => if v.inner.closed {
                loop_step(v, e@).1 is Stop
            } else {
                loop_step(v, e@).1 is Sleep
            },
            LoopEvent::RebindFailed => loop_step(v, e@).1 is Sleep,
            LoopEvent::Dialed { .. } => loop_step(v, e@).1 is Rebind || loop_step(v, e@).1 is Serve,
            LoopEvent::Rebound(_) => loop_step(v, e@).1 is Rebind || loop_step(v, e@).1 is Serve,
            LoopEvent::Started { .. } => loop_step(v, e@).1 is Wait,
        },
{
}

/// Every wait is as long as was due, the next one is due to be twice as long but at most 30 seconds,
/// and a successful dial makes half a second due again. Nothing else changes what is due.
pub proof fn waits_double_up_to_the_longest(v: LoopView, e: LoopEvent)
    ensures
        ({
            let (next, action) = loop_step(v, e@);
            &&& action matches LoopActionView::Sleep { ms, event } ==> {
                &&& ms == v.backoff_ms
                &&& v.backoff_ms <= 15_000 ==> next.backoff_ms == 2 * v.backoff_ms
                &&& v.backoff_ms >= 15_000 ==> next.backoff_ms == 30_000
            }
            &&& e is Dialed ==> next.backoff_ms == 500
            &&& !(action is Sleep) && !(e is Dialed) ==> next.backoff_ms == v.backoff_ms
        }),
{
}

/// The handlers are told of the start and the end of a session, each with its time and the session,
/// and an end also with its reason; they are told of nothing else.
pub proof fn handlers_are_told_of_start_and_end(v: LoopView, e: LoopEvent)
    requires
        v.inner.session is Some,
    ensures
        ({
            let action = loop_step(v, e@).1;
            let told = match action {
                LoopActionView::Stop { event } => event,
                LoopActionView::Sleep { ms, event } => event,
                LoopActionView::Wait { event } => Some(event),
                _ => None,
            };
            match e {
                LoopEvent::Started { at } => told == Some(
                    EventView::Connected { at, session: v.inner.session->0 },
                ),
                LoopEvent::Ended { at } => if v.inner.closed {
                    told is None
                } else {
                    told == Some(
                        EventView::Disconnected {
                            at,
                            session: v.inner.session->0,
                            error: Some("session dropped"@),
                        },
                    )
                },
                _ => told is None,
            }
        }),
{
}

/// A tunnel that was bound again, and not closed meanwhile, receives the connections of the endpoint
/// ID that it was given; one that was closed receives none of them. No other ID changes where it
/// leads, and no other event changes any.
pub proof fn rebound_tunnel_is_routed(v: LoopView, e: LoopEvent, id: Seq<char>)
    requires
        v.queue.len() > 0,
    ensures
        ({
            let next = loop_step(v, e@).0.inner.tunnel_senders;
            let channel = v.queue[0].accept_tx;
            let open = exists|i: int|
                0 <= i < v.inner.tunnels.len() && (#[trigger] v.inner.tunnels[i]).accept_tx
                    == channel;
            match e {
                LoopEvent::Rebound(resp) => if id == resp.client_id@ && open {
                    next.contains_key(id) && next[id] == channel
                } else {
                    next.contains_key(id) == v.inner.tunnel_senders.contains_key(id) && next[id]
                        == v.inner.tunnel_senders[id]
                },
                _ => next == v.inner.tunnel_senders,
            }
        }),
{
}

/// What is left of a queue: some tunnels at its beginning are gone, all of them closed, and the one
/// that is now the first was not closed.
proof fn lemma_still_bound_is_a_rest(queue: Seq<TunnelView>, tunnels: Seq<TunnelView>) -> (k: int)
    ensures
        0 <= k <= queue.len(),
        still_bound(queue, tunnels) == queue.skip(k),
        forall|j: int| 0 <= j < k ==> !is_bound(tunnels, (#[trigger] queue[j]).accept_tx),
        k < queue.len() ==> is_bound(tunnels, queue[k].accept_tx),
    decreases queue.len(),
{
    if queue.len() == 0 || is_bound(tunnels, queue[0].accept_tx) {
        assert(queue.skip(0) =~= queue);
        0
    } else {
        let rest = queue.skip(1);
        let k = lemma_still_bound_is_a_rest(rest, tunnels);
        assert(rest.skip(k) =~= queue.skip(k + 1));
        assert forall|j: int| 0 <= j < k + 1 implies !is_bound(
            tunnels,
            (#[trigger] queue[j]).accept_tx,
        ) by {
            if j > 0 {
                assert(rest[j - 1] == queue[j]);
            }
        }
        k + 1
    }
}

/// Re-binding goes through the queue in order. After an answer the first tunnel leaves it, and then
/// those that were closed meanwhile, but no other; the next one is asked for with the request that
/// was remembered for it, and when none is left the session serves.
pub proof fn only_closed_tunnels_are_passed_over(v: LoopView, e: LoopEvent)
    requires
        e is Rebound,
        v.queue.len() > 0,
    ensures
        exists|k: int|
            {
                &&& 1 <= k <= v.queue.len()
                &&& loop_step(v, e@).0.queue == #[trigger] v.queue.skip(k)
                &&& forall|j: int, i: int|
                    1 <= j < k && 0 <= i < v.inner.tunnels.len() ==> (
                    #[trigger] v.inner.tunnels[i]).accept_tx != (#[trigger] v.queue[j]).accept_tx
                &&& k < v.queue.len() ==> loop_step(v, e@).1 == (LoopActionView::Rebind {
                    request: v.queue[k].bind_req,
                })
                &&& k < v.queue.len() ==> exists|i: int|
                    0 <= i < v.inner.tunnels.len() && (#[trigger] v.inner.tunnels[i]).accept_tx
                        == v.queue[k].accept_tx
                &&& k == v.queue.len() ==> loop_step(v, e@).1 is Serve
            },
{
    let rest = v.queue.skip(1);
    let n = lemma_still_bound_is_a_rest(rest, v.inner.tunnels);
    let k = n + 1;
    assert(rest.skip(n) =~= v.queue.skip(k));
    assert forall|j: int, i: int| 1 <= j < k && 0 <= i < v.inner.tunnels.len() implies (
    #[trigger] v.inner.tunnels[i]).accept_tx != (#[trigger] v.queue[j]).accept_tx by {
        assert(rest[j - 1] == v.queue[j]);
        assert(!is_bound(v.inner.tunnels, rest[j - 1].accept_tx));
    }
    if k < v.queue.len() {
        assert(rest[n] == v.queue[k]);
        assert(v.queue.skip(k)[0] == v.queue[k]);
    }
}

/// A dial puts all registered tunnels into the queue, in order; a failed re-bind empties it; and
/// nothing but these and an answered re-bind changes it.
pub proof fn dial_queues_every_tunnel(v: LoopView, e: LoopEvent)
    ensures
        e is Dialed ==> loop_step(v, e@).0.queue == v.inner.tunnels,
        e is Dialed && v.inner.tunnels.len() > 0 ==> loop_step(v, e@).1 == (LoopActionView::Rebind {
            request: v.inner.tunnels[0].bind_req,
        }),
        e is Dialed && v.inner.tunnels.len() == 0 ==> loop_step(v, e@).1 is Serve,
        e is RebindFailed ==> loop_step(v, e@).0.queue.len() == 0,
        !(e is Dialed) && !(e is Rebound) && !(e is RebindFailed) ==> loop_step(v, e@).0.queue
            == v.queue,
{
    if v.inner.tunnels.len() > 0 {
        assert(is_bound(v.inner.tunnels, v.inner.tunnels[0].accept_tx));
    }
}

/// An action of the loop is the one that its step orders: the same kind; a bind request with every
/// part of the one that is to be sent; a wait of exactly the time that was ordered; and calls that
/// hand the event to every handler once, in order.
pub proof fn ordered_action_is_performed(
    action: LoopAction,
    ordered: LoopActionView,
    handlers: Seq<HandlerId>,
)
    requires
        action.is_view(ordered, handlers),
    ensures
        match ordered {
            LoopActionView::Stop { event } => action matches LoopAction::Stop { calls } && match event {
                Some(e) => calls@.len() == handlers.len() && forall|i: int|
                    0 <= i < calls@.len() ==> (#[trigger] calls@[i]).handler == handlers[i]
                        && calls@[i].event@ == e,
                None => calls@.len() == 0,
            },
            LoopActionView::Dial => action is Dial,
            LoopActionView::Rebind { request: r } => action matches LoopAction::Rebind { request }
                && request.client_id@ == r.client_id && request.proto@ == r.proto
                && json::is_object(request.opts) == r.has_opts && json::members(request.opts)
                == r.opts && request.forwards@ == r.forwards,
            LoopActionView::Serve => action is Serve,
            LoopActionView::Wait { event: e } => action matches LoopAction::Wait { calls }
                && calls@.len() == handlers.len() && forall|i: int|
                0 <= i < calls@.len() ==> (#[trigger] calls@[i]).handler == handlers[i]
                    && calls@[i].event@ == e,
            LoopActionView::Sleep { ms: m, event } => action matches LoopAction::Sleep { ms, calls }
                && ms == m && match event {
                Some(e) => calls@.len() == handlers.len() && forall|i: int|
                    0 <= i < calls@.len() ==> (#[trigger] calls@[i]).handler == handlers[i]
                        && calls@[i].event@ == e,
                None => calls@.len() == 0,
            },
        },
{
}

/// The state of the machine is what the loop and the shared state hold, field by field.
pub proof fn state_is_what_the_loop_holds(s: ReconnectingSession, inner: ReconnectInner)
    ensures
        ({
            let v = s.state(&inner);
            &&& v.phase == s.phase && v.backoff_ms == s.backoff_ms
            &&& v.queue.len() == s.queue@.len()
            &&& forall|i: int|
                0 <= i < s.queue@.len() ==> (#[trigger] v.queue[i]).accept_tx
                    == s.queue@[i].accept_tx && v.queue[i].bind_req == s.queue@[i].bind_req@
            &&& v.inner.raw_session == inner.raw_session
            &&& v.inner.closed == inner.closed && v.inner.connected == inner.connected
            &&& v.inner.cookie == inner.cookie@
            &&& v.inner.event_handlers == inner.event_handlers@
            &&& v.inner.tunnel_senders == inner.tunnel_senders@
            &&& v.inner.tunnels.len() == inner.tunnels@.len()
            &&& forall|i: int|
                0 <= i < inner.tunnels@.len() ==> (#[trigger] v.inner.tunnels[i]).accept_tx
                    == inner.tunnels@[i].accept_tx && v.inner.tunnels[i].bind_req
                    == inner.tunnels@[i].bind_req@
            &&& v.inner.session is Some == inner.session is Some
            &&& inner.session matches Some(session) ==> v.inner.session->0.id == session.id@
                && v.inner.session->0.started_at == session.started_at
            &&& v.inner.auth_extra.authtoken == inner.auth_extra.authtoken@
            &&& v.inner.auth_extra.cookie == inner.auth_extra.cookie@
        }),
{
}

/// Binding a tunnel puts it behind the others and lets its endpoint ID lead to its channel. It
/// changes nothing else: not the other tunnels, not where any other ID leads, not the session. Of the
/// request that is remembered only the host can differ, and only where one was assigned.
pub proof fn binding_adds_one_tunnel(
    v: InnerView,
    config: TunnelView,
    endpoint_id: Seq<char>,
    assigned: Option<UrlView>,
    id: Seq<char>,
)
    ensures
        ({
            let after = with_tunnel(v, config, endpoint_id, assigned);
            let kept = after.tunnels.last();
            &&& after.tunnels == v.tunnels.push(kept)
            &&& kept.accept_tx == config.accept_tx
            &&& kept.bind_req.client_id == config.bind_req.client_id
            &&& kept.bind_req.proto == config.bind_req.proto
            &&& kept.bind_req.forwards == config.bind_req.forwards
            &&& kept.bind_req.has_opts == config.bind_req.has_opts
            &&& !(assigned is Some && assigned->0.host is Some && config.bind_req.has_opts)
                ==> kept.bind_req.opts == config.bind_req.opts
            &&& assigned is Some && assigned->0.host is Some && config.bind_req.has_opts
                ==> kept.bind_req.opts.contains_key("Hostname"@)
                && kept.bind_req.opts["Hostname"@] == Json::Text(assigned->0.host->0)
            &&& id != "Hostname"@ ==> kept.bind_req.opts.contains_key(id)
                == config.bind_req.opts.contains_key(id) && kept.bind_req.opts[id]
                == config.bind_req.opts[id]
            &&& after.tunnel_senders.contains_key(endpoint_id)
            &&& after.tunnel_senders[endpoint_id] == config.accept_tx
            &&& id != endpoint_id ==> after.tunnel_senders.contains_key(id)
                == v.tunnel_senders.contains_key(id) && after.tunnel_senders[id]
                == v.tunnel_senders[id]
            &&& after.auth_extra == v.auth_extra && after.event_handlers == v.event_handlers
            &&& after.cookie == v.cookie && after.session == v.session
            &&& after.raw_session == v.raw_session && after.closed == v.closed
            &&& after.connected == v.connected
        }),
{
}

/// Closing a tunnel takes it, and it alone, out of the tunnels, of which the others stay in order,
/// and takes away exactly the routes that lead to its channel. It changes nothing else.
pub proof fn closing_takes_one_tunnel(v: InnerView, channel: ChannelId, t: TunnelView, id: Seq<char>)
    ensures
        ({
            let after = without_tunnel(v, channel);
            let more = without_tunnel(InnerView { tunnels: v.tunnels.push(t), ..v }, channel);
            &&& v.tunnels.len() == 0 ==> after.tunnels.len() == 0
            &&& more.tunnels == (if t.accept_tx == channel {
                after.tunnels
            } else {
                after.tunnels.push(t)
            })
            &&& after.tunnel_senders.contains_key(id) == (v.tunnel_senders.contains_key(id)
                && v.tunnel_senders[id] != channel)
            &&& after.tunnel_senders.contains_key(id) ==> after.tunnel_senders[id]
                == v.tunnel_senders[id]
            &&& after.auth_extra == v.auth_extra && after.event_handlers == v.event_handlers
            &&& after.cookie == v.cookie && after.session == v.session
            &&& after.raw_session == v.raw_session && after.closed == v.closed
            &&& after.connected == v.connected
        }),
{
    reveal(Seq::filter);
    assert(v.tunnels.push(t).drop_last() =~= v.tunnels);
    if v.tunnels.len() == 0 {
        assert(v.tunnels.filter(|t: TunnelView| t.accept_tx != channel) =~= Seq::empty());
    }
}

/// The server is named by the host of the connect address, which stands in front of the first
/// colon, where that can be the name of a server; otherwise it cannot be dialed.
pub proof fn server_is_named_by_the_host(
    r: Result<String, Error>,
    host: Seq<char>,
    rest: Seq<char>,
    accepted: bool,
)
    requires
        !host.contains(':'),
        named(r, host + seq![':'] + rest, accepted),
    ensures
        accepted ==> (r matches Ok(name) && name@ == host),
        !accepted ==> r matches Err(Error::Io(_)),
{
    let addr = host + seq![':'] + rest;
    text::texts_fall_apart_at_the_first(addr, ':');
    let front = text::before_first(addr, ':');
    let n = host.len() as int;
    assert(addr[n] == ':');
    assert(addr.contains(':'));
    assert(addr == front + seq![':'] + text::after_first(addr, ':'));
    assert(addr[front.len() as int] == ':');
    if front.len() < n {
        assert(host[front.len() as int] == ':');
    }
    if n < front.len() {
        assert(front[n] == ':');
    }
    assert(front =~= host) by {
        assert(addr.take(n) =~= host);
        assert(addr.take(n) =~= front);
    }
}

/// One step of the loop, by what it does to the shared state. The session for binds is the one that
/// was dialed last, until it ends; the description of the session and the cookie are those of the
/// last answer; the agent is connected while it serves; and a step neither opens nor closes the agent
/// nor changes a tunnel or a handler.
pub proof fn step_changes_the_shared_state(
    s: &mut ReconnectingSession,
    inner: &mut ReconnectInner,
    e: LoopEvent,
    r: LoopAction,
)
    requires
        call_ensures(ReconnectingSession::reconnect_loop, (s, inner, e), r),
    ensures
        match e {
            LoopEvent::Dialed { raw, resp, at } => {
                &&& final(inner).raw_session == Some(raw)
                &&& final(inner).session is Some
                &&& final(inner).session->0.id@ == resp.extra.agent_session_id@
                &&& final(inner).session->0.started_at == at
                &&& final(inner).cookie@ == resp.extra.cookie@
                &&& final(inner).auth_extra.cookie@ == resp.extra.cookie@
            },
            LoopEvent::Ended { .. } => final(inner).raw_session is None,
            _ => final(inner).raw_session == old(inner).raw_session,
        },
        !(e is Dialed) ==> final(inner)@.session == old(inner)@.session && final(inner).cookie@
            == old(inner).cookie@ && final(inner).auth_extra.cookie@
            == old(inner).auth_extra.cookie@,
        final(inner).auth_extra.authtoken@ == old(inner).auth_extra.authtoken@,
        e is Started ==> final(inner).connected,
        e is Ended ==> !final(inner).connected,
        !(e is Started) && !(e is Ended) ==> final(inner).connected == old(inner).connected,
        final(inner).closed == old(inner).closed,
        final(inner).tunnels@.len() == old(inner).tunnels@.len(),
        forall|i: int|
            0 <= i < old(inner).tunnels@.len() ==> (#[trigger] final(inner).tunnels@[i])@ == old(
                inner,
            ).tunnels@[i]@,
        final(inner).event_handlers == old(inner).event_handlers,
        final(inner).rpc_handler == old(inner).rpc_handler,
        final(inner).dial_config == old(inner).dial_config,
{
    let v = s.state(&*inner);
    binds_go_over_the_session_dialed_last(v, e);
    session_is_that_of_the_answer(v, e);
    agent_is_connected_while_it_serves(v, e);
    let before = inner@.tunnels;
    let after = final(inner)@.tunnels;
    assert(after == before);
    assert(after.len() == final(inner).tunnels@.len());
    assert forall|i: int| 0 <= i < old(inner).tunnels@.len() implies (
    #[trigger] final(inner).tunnels@[i])@ == old(inner).tunnels@[i]@ by {
        assert(after[i] == before[i]);
    }
}

/// One step of the loop, by what it orders. A closed agent stops when it wakes, when a dial fails and
/// when its session ends. An open one dials when it wakes, and otherwise waits, for as long as was
/// due: half a second after a dial that succeeded, and from then on twice as long each time, up to 30
/// seconds. A dial leads to the re-bind of the first tunnel, or to the accept loop if there is none.
pub proof fn step_orders_what_comes_next(
    s: &mut ReconnectingSession,
    inner: &mut ReconnectInner,
    e: LoopEvent,
    r: LoopAction,
)
    requires
        call_ensures(ReconnectingSession::reconnect_loop, (s, inner, e), r),
    ensures
        old(inner).closed && (e is Woke || e is DialFailed || e is Ended) ==> r is Stop
            && final(s).phase is Stopped,
        !old(inner).closed && e is Woke ==> r is Dial && final(s).phase is Dialing,
        !old(inner).closed && (e is DialFailed || e is Ended) || e is RebindFailed ==> r is Sleep
            && final(s).phase is Top,
        r matches LoopAction::Sleep { ms, calls } ==> {
            &&& ms == old(s).backoff_ms
            &&& final(s).backoff_ms == if 2 * old(s).backoff_ms <= 30_000 {
                2 * old(s).backoff_ms
            } else {
                30_000
            }
        },
        e is Dialed ==> final(s).backoff_ms == 500,
        !(r is Sleep) && !(e is Dialed) ==> final(s).backoff_ms == old(s).backoff_ms,
        e is Dialed && old(inner).tunnels@.len() == 0 ==> r is Serve && final(s).phase is Starting,
        e is Dialed && old(inner).tunnels@.len() > 0 ==> final(s).phase is Rebinding && (
        r matches LoopAction::Rebind { request } && request@ == old(inner).tunnels@[0].bind_req@),
        e is Rebound ==> r is Rebind || r is Serve,
        e is Started ==> r is Wait && final(s).phase is Serving,
{
    let v = s.state(&*inner);
    every_event_is_answered(v, e);
    waits_double_up_to_the_longest(v, e);
    dial_queues_every_tunnel(v, e);
    ordered_action_is_performed(r, loop_step(v, e@).1, inner.event_handlers@);
    only_the_ordered_action_ends(v, e@, LoopEventView::Woke);
}

/// A bind is sent over the session of the shared state, as it is, and not at all without one.
pub proof fn bind_is_sent_over_the_session(
    inner: &ReconnectInner,
    config: &TunnelConfig,
    r: Result<(RawSession, BindReq), Error>,
)
    requires
        call_ensures(ReconnectInner::do_bind, (inner, config), r),
    ensures
        match inner.raw_session {
            Some(raw) => r matches Ok((over, request)) && over == raw && request@
                == config.bind_req@,
            None => r matches Err(Error::NotConnected),
        },
{
}

/// A dial gives a session if and only if the authentication was answered without an error message,
/// and then the session and the answer that it came with.
pub proof fn dial_gives_the_session_that_answered(dial: Dial, r: Result<(RawSession, AuthResp), Error>)
    requires
        call_ensures(dial_and_auth, (dial,), r),
    ensures
        r is Ok <==> (dial matches Dial::Answered { raw, resp } && resp.error@.len() == 0),
        r matches Ok((over, answer)) ==> (dial matches Dial::Answered { raw, resp } && over == raw
            && answer == resp),
        dial matches Dial::Answered { raw, resp } ==> resp.error@.len() > 0 ==> (r matches Err(
            Error::Cloud { code, message },
        ) && message@ == resp.error@),
        dial matches Dial::TcpFailed(e) ==> (r matches Err(Error::Io(io)) && io == e),
        dial matches Dial::TlsFailed(e) ==> (r matches Err(Error::Io(io)) && io.message@ == e@),
        dial matches Dial::ExchangeFailed(e) ==> (r matches Err(x) && x == e),
{
}

/// A bind that is refused registers nothing, and the error repeats the message. Any other registers
/// one tunnel, whose channel the endpoint ID of the answer then leads to.
pub proof fn refused_bind_registers_nothing(
    inner: &mut ReconnectInner,
    config: TunnelConfig,
    reply: BindResp,
    r: Result<BindResp, Error>,
)
    requires
        call_ensures(ReconnectingSession::bind, (inner, config, reply), r),
    ensures
        r is Ok <==> reply.error@.len() == 0,
        reply.error@.len() > 0 ==> *final(inner) == *old(inner) && (r matches Err(
            Error::Cloud { code, message },
        ) && message@ == reply.error@),
        reply.error@.len() == 0 ==> {
            &&& r == Ok::<BindResp, Error>(reply)
            &&& final(inner).tunnels@.len() == old(inner).tunnels@.len() + 1
            &&& final(inner).tunnels@.last().accept_tx == config.accept_tx
            &&& final(inner).tunnels@.last().bind_req.proto@ == config.bind_req.proto@
            &&& final(inner).tunnel_senders@.contains_key(reply.client_id@)
            &&& final(inner).tunnel_senders@[reply.client_id@] == config.accept_tx
            &&& final(inner).raw_session == old(inner).raw_session
        },
{
    if reply.error@.len() == 0 {
        let assigned = urls::url_parse(reply.url@).ok();
        binding_adds_one_tunnel(inner@, config@, reply.client_id@, assigned, reply.client_id@);
        let n = old(inner).tunnels@.len() as int;
        assert(final(inner)@.tunnels.len() == n + 1);
        assert(final(inner)@.tunnels[n] == final(inner).tunnels@[n]@);
    }
}

/// Closing the tunnel of a channel leaves no ID that leads to it, and no tunnel over it. All others
/// stay.
pub proof fn closed_channel_is_reached_by_nothing(
    inner: &mut ReconnectInner,
    channel: ChannelId,
    id: Seq<char>,
    i: int,
)
    requires
        call_ensures(ReconnectInner::close, (inner, channel), ()),
        0 <= i < final(inner).tunnels@.len(),
    ensures
        final(inner).tunnels@[i].accept_tx != channel,
        final(inner).tunnel_senders@.contains_key(id) <==> old(inner).tunnel_senders@.contains_key(
            id,
        ) && old(inner).tunnel_senders@[id] != channel,
        final(inner).tunnel_senders@.contains_key(id) ==> final(inner).tunnel_senders@[id] == old(
            inner,
        ).tunnel_senders@[id],
        final(inner).raw_session == old(inner).raw_session,
        final(inner).closed == old(inner).closed,
        final(inner).connected == old(inner).connected,
{
    closing_takes_one_tunnel(inner@, channel, arbitrary(), id);
    lemma_filtered(inner@.tunnels, channel);
    assert(final(inner)@.tunnels[i].accept_tx == final(inner).tunnels@[i].accept_tx);
}

/// Every handler is told of an answered heartbeat, once and in order: when, of which session, and how
/// fast it was.
pub proof fn heartbeats_are_reported_to_all(
    handlers: &Vec<HandlerId>,
    session: &AgentSession,
    latency: Duration,
    at: SystemTime,
    r: Vec<Delivery>,
)
    requires
        call_ensures(heartbeat_received, (handlers, session, latency, at), r),
    ensures
        r@.len() == handlers@.len(),
        forall|i: int|
            0 <= i < r@.len() ==> (#[trigger] r@[i]).handler == handlers@[i] && (
            r@[i].event matches Event::AgentHeartbeatReceived(h) && h.latency == latency
                && h.occurred_at == at && h.session.id@ == session.id@),
{
    let told = EventView::Heartbeat { at, session: session@, latency };
    events::every_handler_is_called_once(r@, handlers@, told);
    assert forall|i: int| 0 <= i < r@.len() implies (#[trigger] r@[i]).handler == handlers@[i] && (
    r@[i].event matches Event::AgentHeartbeatReceived(h) && h.latency == latency && h.occurred_at
        == at && h.session.id@ == session.id@) by {
        assert(r@.map_values(|c: Delivery| c.handler)[i] == handlers@[i]);
        events::events_say_what_happened(r@[i].event);
    }
}

/// Where the loop stands alone decides what can happen, whether or not the agent was closed, or what
/// else became of it, meanwhile: two states in the same phase await the same events, and every event
/// is awaited in exactly one phase.
pub proof fn phase_alone_decides_what_can_happen(v: LoopView, w: LoopView, e: LoopEvent)
    ensures
        v.phase == w.phase ==> expects(v, e@) == expects(w, e@),
        expects(v, e@) <==> v.phase == match e {
            LoopEvent::Woke => Phase::Top,
            LoopEvent::DialFailed | LoopEvent::Dialed { .. } => Phase::Dialing,
            LoopEvent::Rebound(_) | LoopEvent::RebindFailed => Phase::Rebinding,
            LoopEvent::Started { .. } => Phase::Starting,
            LoopEvent::Ended { .. } => Phase::Serving,
        },
{
}

/// A step of the loop moves it on: from a dial to re-binding or starting, from there to serving, and
/// after a failure or an end back to the top, or to its end if the agent is closed.
pub proof fn step_moves_the_loop_on(v: LoopView, e: LoopEvent)
    ensures
        ({
            let next = loop_step(v, e@).0.phase;
            match loop_step(v, e@).1 {
                LoopActionView::Dial => next is Dialing,
                LoopActionView::Rebind { .. } => next is Rebinding,
                LoopActionView::Serve => next is Starting,
                LoopActionView::Wait { .. } => next is Serving,
                LoopActionView::Sleep { .. } => next is Top,
                LoopActionView::Stop { .. } => next is Stopped,
            }
        }),
{
}

/// The name of the server that is dialed is the host of the connect address, where that can be the name
/// of a server.
pub proof fn dialed_server_is_named_by_the_host(
    config: &DialConfig,
    accepted: bool,
    r: Result<String, Error>,
    host: Seq<char>,
    rest: Seq<char>,
)
    requires
        call_ensures(DialConfig::server_name_if, (config, accepted), r),
        config.connect_url@ == host + seq![':'] + rest,
        !host.contains(':'),
    ensures
        accepted ==> (r matches Ok(name) && name@ == host),
        !accepted ==> r matches Err(Error::Io(_)),
{
    server_is_named_by_the_host(r, host, rest, accepted);
}

/// A loop that is started stands at its top, with half a second to wait and nothing to bind again.
pub proof fn started_loop_stands_at_its_top(r: ReconnectingSession)
    requires
        call_ensures(ReconnectingSession::start, (), r),
    ensures
        r.phase is Top && r.backoff_ms == 500 && r.queue@.len() == 0,
{
}

} // verus!
