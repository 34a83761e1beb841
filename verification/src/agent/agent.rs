//! An agent on top of sessions.
use vstd::prelude::*;
use std::time::Instant;
use crate::agent::builder::{AgentBuilder, AgentBuilderView, SessionBuilder, SessionBuilderView};
use crate::agent::builder;
use crate::agent::endpoint_options;
use crate::agent::endpoint_options::{
    url_scheme_of,
    EndpointOption,
    EndpointOpts,
    EndpointOptsView,
};
use crate::agent::events::{Event, EventHandler};
use crate::agent::upstream;
use crate::agent::upstream::Upstream;
use crate::config;
use crate::config::{
    set_first,
    set_switch,
    set_text,
    Scheme,
    Tunnel,
    TunnelBuilder,
    TunnelBuilderView,
    TunnelKind,
};
use crate::events::HandlerId;
use crate::text;
use crate::text::{join, join_host_port, same_text};
use crate::urls;
use crate::urls::{Url, UrlView};

verus! {

/// A session with the ngrok service.
#[derive(Debug)]
pub struct Session {
    /// The session ID.
    pub id: String,
}

impl Clone for Session {
    fn clone(&self) -> (r: Session)
        ensures
            r == *self,
    {
        Session { id: self.id.clone() }
    }
}

/// A record of an endpoint created by the agent.
#[derive(Debug)]
pub struct EndpointRecord {
    /// The endpoint's unique ID.
    pub id: String,
    /// The endpoint's URL, if available.
    pub url: Option<String>,
}

/// An endpoint created by an agent, as mathematical values.
pub struct EndpointView {
    /// The endpoint's unique ID.
    pub id: Seq<char>,
    /// The endpoint's URL, if available.
    pub url: Option<Seq<char>>,
}

impl View for EndpointRecord {
    type V = EndpointView;

    open spec fn view(&self) -> EndpointView {
        EndpointView { id: self.id@, url: self.url.deep_view() }
    }
}

/// Information about an active endpoint.
#[derive(Debug, Clone)]
pub struct EndpointRef {
    /// The endpoint's unique ID.
    pub id: String,
    /// The endpoint's URL, if available.
    pub url: Option<String>,
}

impl View for EndpointRef {
    type V = EndpointView;

    open spec fn view(&self) -> EndpointView {
        EndpointView { id: self.id@, url: self.url.deep_view() }
    }
}

/// An ngrok agent.
///
/// The `Agent` is the main interface for interacting with the ngrok service.
/// It manages the session lifecycle and provides methods for creating endpoints.
pub struct Agent {
    /// How a session is to be established.
    pub session_builder: SessionBuilder,
    /// The session, while the agent is connected.
    pub session: Option<Session>,
    /// Whether the agent connects when an endpoint is created.
    pub auto_connect: bool,
    /// The event handlers, in the order of their registration.
    pub event_handlers: Vec<EventHandler>,
    /// The endpoints that were created, in order.
    pub endpoints: Vec<EndpointRecord>,
}

/// An agent, as mathematical values.
pub struct AgentView {
    /// How a session is to be established.
    pub session_builder: SessionBuilderView,
    /// The ID of the session, while the agent is connected.
    pub session: Option<Seq<char>>,
    /// Whether the agent connects when an endpoint is created.
    pub auto_connect: bool,
    /// The event handlers.
    pub event_handlers: Seq<HandlerId>,
    /// The endpoints that were created, in order.
    pub endpoints: Seq<EndpointView>,
}

impl View for Agent {
    type V = AgentView;

    open spec fn view(&self) -> AgentView {
        AgentView {
            session_builder: self.session_builder@,
            session: match self.session {
                Some(s) => Some(s.id@),
                None => None,
            },
            auto_connect: self.auto_connect,
            event_handlers: self.event_handlers@,
            endpoints: self.endpoints@.map_values(|e: EndpointRecord| e@),
        }
    }
}

/// The agent that a builder makes: not connected, and without endpoints.
pub open spec fn new_agent(b: AgentBuilderView) -> AgentView {
    AgentView {
        session_builder: b.session_builder,
        session: None,
        auto_connect: b.auto_connect,
        event_handlers: b.event_handlers,
        endpoints: Seq::empty(),
    }
}

/// The agent after it has connected.
pub open spec fn connected(v: AgentView, session_id: Seq<char>) -> AgentView {
    AgentView { session: Some(session_id), ..v }
}

/// The agent after it was told to disconnect: without a session and, if it had one, without
/// endpoints.
pub open spec fn disconnected(v: AgentView) -> AgentView {
    if v.session is Some {
        AgentView { session: None, endpoints: Seq::empty(), ..v }
    } else {
        v
    }
}

/// The agent after an endpoint was registered.
pub open spec fn registered(v: AgentView, id: Seq<char>, url: Option<Seq<char>>) -> AgentView {
    AgentView { endpoints: v.endpoints.push(EndpointView { id, url }), ..v }
}

/// Information about the agent's current session.
#[derive(Debug)]
pub struct AgentSession {
    session: Session,
}

impl AgentSession {
    /// The session.
    pub closed spec fn of(&self) -> Session {
        self.session
    }

    /// Returns the session ID.
    pub fn id(&self) -> (r: String)
        ensures
            r@ == self.of().id@,
    {
        self.session.id.clone()
    }

    /// Returns a reference to the underlying session.
    pub fn session(&self) -> (r: &Session)
        ensures
            *r == self.of(),
    {
        &self.session
    }
}

/// Why a session could not be established.
#[derive(Debug)]
pub struct ConnectError {
    /// The message.
    pub message: String,
}

/// Why a request over a session failed.
#[derive(Debug)]
pub struct RpcError {
    /// The message.
    pub message: String,
}

/// Errors that can occur when using the agent.
#[derive(Debug)]
pub enum AgentError {
    /// A connection error occurred.
    Connect(ConnectError),
    /// An RPC error occurred.
    Rpc(RpcError),
    /// The agent is not connected.
    NotConnected,
    /// The agent is already connected.
    AlreadyConnected,
    /// An invalid URL was provided.
    InvalidUrl(String),
    /// An unsupported URL scheme was provided.
    UnsupportedScheme(String),
}

impl AgentError {
    /// The text that describes the error.
    pub open spec fn text(&self) -> Seq<char> {
        match self {
            AgentError::Connect(e) => "connection error: "@ + e.message@,
            AgentError::Rpc(e) => "rpc error: "@ + e.message@,
            AgentError::NotConnected => "agent not connected, call connect() first"@,
            AgentError::AlreadyConnected => "agent already connected"@,
            AgentError::InvalidUrl(s) => "invalid url: "@ + s@,
            AgentError::UnsupportedScheme(s) => "unsupported endpoint URL scheme: "@ + s@,
        }
    }

    /// Describe the error.
    pub fn to_string(&self) -> (r: String)
        ensures
            r@ == self.text(),
    {
        match self {
            AgentError::Connect(e) => join("connection error: ", e.message.as_str()),
            AgentError::Rpc(e) => join("rpc error: ", e.message.as_str()),
            AgentError::NotConnected => "agent not connected, call connect() first".to_owned(),
            AgentError::AlreadyConnected => "agent already connected".to_owned(),
            AgentError::InvalidUrl(s) => join("invalid url: ", s.as_str()),
            AgentError::UnsupportedScheme(s) => join(
                "unsupported endpoint URL scheme: ",
                s.as_str(),
            ),
        }
    }
}

impl From<ConnectError> for AgentError {
    fn from(e: ConnectError) -> (r: AgentError) {
        AgentError::Connect(e)
    }
}

impl vstd::std_specs::convert::FromSpecImpl<ConnectError> for AgentError {
    open spec fn obeys_from_spec() -> bool {
        true
    }

    open spec fn from_spec(e: ConnectError) -> AgentError {
        AgentError::Connect(e)
    }
}

impl From<RpcError> for AgentError {
    fn from(e: RpcError) -> (r: AgentError) {
        AgentError::Rpc(e)
    }
}

impl vstd::std_specs::convert::FromSpecImpl<RpcError> for AgentError {
    open spec fn obeys_from_spec() -> bool {
        true
    }

    open spec fn from_spec(e: RpcError) -> AgentError {
        AgentError::Rpc(e)
    }
}

/// One call of an event handler: who is called, and with which event.
#[derive(Debug)]
pub struct EventCall {
    /// The handler.
    pub handler: EventHandler,
    /// The event it receives.
    pub event: Event,
}

/// Whether `calls` hands `event` to every handler of `handlers` once, in the order of their
/// registration, and makes no other call.
pub open spec fn calls_all(calls: Seq<EventCall>, handlers: Seq<HandlerId>, event: Event) -> bool {
    &&& calls.len() == handlers.len()
    &&& forall|i: int|
        0 <= i < calls.len() ==> (#[trigger] calls[i]).handler == handlers[i] && calls[i].event
            == event
}

/// `host:port`, or the host alone where the URL names no port.
pub open spec fn host_port(u: UrlView) -> Option<Seq<char>> {
    match (u.host, u.port) {
        (Some(host), Some(port)) => Some(text::host_and_port(host, port)),
        (Some(host), None) => Some(host),
        (None, _) => None,
    }
}

/// `host:port`, or the host alone where the URL names no port.
pub fn host_port_of(u: &Url) -> (r: Option<String>)
    ensures
        r.deep_view() == host_port(u@),
{
    match (u.host_str(), u.port()) {
        (Some(host), Some(port)) => Some(join_host_port(host, port)),
        (Some(host), None) => Some(host.to_owned()),
        (None, _) => None,
    }
}

/// The tunnel after the options that all kinds have were applied. Of several bindings only the
/// first is used.
pub open spec fn with_common(b: TunnelBuilderView, o: EndpointOptsView) -> TunnelBuilderView {
    TunnelBuilderView {
        metadata: config::set_over(b.metadata, o.metadata),
        traffic_policy: config::set_over(b.traffic_policy, o.traffic_policy),
        pooling_enabled: config::switch_over(b.pooling_enabled, o.pooling_enabled),
        binding: config::set_over(b.binding, config::first_of(o.bindings)),
        ..b
    }
}

/// The HTTP tunnel for the options, of which the URL parses as given.
pub open spec fn with_http_opts(
    b: TunnelBuilderView,
    o: EndpointOptsView,
    parsed: Option<UrlView>,
) -> TunnelBuilderView {
    let c = with_common(b, o);
    match parsed {
        Some(u) => TunnelBuilderView {
            domain: config::set_over(c.domain, host_port(u)),
            scheme: Some(if u.scheme == "http"@ {
                Scheme::HTTP
            } else {
                Scheme::HTTPS
            }),
            ..c
        },
        None => c,
    }
}

/// The TCP tunnel for the options, of which the URL parses as given.
pub open spec fn with_tcp_opts(
    b: TunnelBuilderView,
    o: EndpointOptsView,
    parsed: Option<UrlView>,
) -> TunnelBuilderView {
    let c = with_common(b, o);
    match parsed {
        Some(u) => TunnelBuilderView {
            remote_addr: config::set_over(c.remote_addr, host_port(u)),
            ..c
        },
        None => c,
    }
}

/// The TLS tunnel for the options, of which the URL parses as given.
pub open spec fn with_tls_opts(
    b: TunnelBuilderView,
    o: EndpointOptsView,
    parsed: Option<UrlView>,
) -> TunnelBuilderView {
    let c = with_common(b, o);
    match parsed {
        Some(u) => TunnelBuilderView { domain: config::set_over(c.domain, host_port(u)), ..c },
        None => c,
    }
}

/// Apply the options that all kinds of tunnels have.
fn apply_common_opts(builder: &mut TunnelBuilder, opts: &EndpointOpts)
    ensures
        final(builder)@ == with_common(old(builder)@, opts@),
{
    set_text(&mut builder.metadata, &opts.metadata);
    set_text(&mut builder.traffic_policy, &opts.traffic_policy);
    set_switch(&mut builder.pooling_enabled, opts.pooling_enabled);
    set_first(&mut builder.binding, &opts.bindings);
}

/// Apply options, of which the URL was parsed, to an HTTP tunnel.
pub fn apply_common_opts_http(builder: &mut TunnelBuilder, opts: &EndpointOpts, parsed: &Option<Url>)
    ensures
        final(builder)@ == with_http_opts(old(builder)@, opts@, urls::maybe(*parsed)),
{
    if let Some(u) = parsed {
        set_text(&mut builder.domain, &host_port_of(u));
        builder.scheme = if same_text(u.scheme(), "http") {
            Some(Scheme::HTTP)
        } else {
            Some(Scheme::HTTPS)
        };
    }
    apply_common_opts(builder, opts);
}

/// Apply options, of which the URL was parsed, to a TCP tunnel.
pub fn apply_common_opts_tcp(builder: &mut TunnelBuilder, opts: &EndpointOpts, parsed: &Option<Url>)
    ensures
        final(builder)@ == with_tcp_opts(old(builder)@, opts@, urls::maybe(*parsed)),
{
    if let Some(u) = parsed {
        set_text(&mut builder.remote_addr, &host_port_of(u));
    }
    apply_common_opts(builder, opts);
}

/// Apply options, of which the URL was parsed, to a TLS tunnel.
pub fn apply_common_opts_tls(builder: &mut TunnelBuilder, opts: &EndpointOpts, parsed: &Option<Url>)
    ensures
        final(builder)@ == with_tls_opts(old(builder)@, opts@, urls::maybe(*parsed)),
{
    if let Some(u) = parsed {
        set_text(&mut builder.domain, &host_port_of(u));
    }
    apply_common_opts(builder, opts);
}

/// The tunnel for the options of an endpoint, of which the URL parses as given and has a scheme for
/// which endpoints exist.
pub open spec fn tunnel_for(o: EndpointOptsView, parsed: Option<UrlView>) -> TunnelBuilderView {
    let scheme = endpoint_options::scheme_of(parsed);
    if scheme == "tcp"@ {
        with_tcp_opts(config::plain_tunnel(TunnelKind::Tcp), o, parsed)
    } else if scheme == "tls"@ {
        with_tls_opts(config::plain_tunnel(TunnelKind::Tls), o, parsed)
    } else {
        with_http_opts(config::plain_tunnel(TunnelKind::Http), o, parsed)
    }
}

/// Whether `r` is the tunnel for the options, of which the URL parses as given, or the error that
/// there are no endpoints for its scheme.
pub open spec fn opens(
    r: Result<TunnelBuilder, AgentError>,
    o: EndpointOptsView,
    parsed: Option<UrlView>,
) -> bool {
    let scheme = endpoint_options::scheme_of(parsed);
    if endpoint_options::is_endpoint_scheme(scheme) {
        r is Ok && r->Ok_0@ == tunnel_for(o, parsed)
    } else {
        r matches Err(AgentError::UnsupportedScheme(s)) && s@ == scheme
    }
}

/// The tunnel for the options of an endpoint, of which the URL was parsed.
pub fn tunnel_of(opts: &EndpointOpts, parsed: &Option<Url>) -> (r: Result<TunnelBuilder, AgentError>)
    ensures
        opens(r, opts@, urls::maybe(*parsed)),
{
    let scheme: &str = url_scheme_of(parsed);
    proof {
        reveal_strlit("http");
        reveal_strlit("https");
        reveal_strlit("tcp");
        reveal_strlit("tls");
        assert("http"@[1] == 't' && "tcp"@[1] == 'c' && "tls"@[1] == 'l' && "https"@[1] == 't');
    }
    if same_text(scheme, "http") || same_text(scheme, "https") {
        let mut builder = TunnelBuilder::new(TunnelKind::Http);
        apply_common_opts_http(&mut builder, opts, parsed);
        Ok(builder)
    } else if same_text(scheme, "tcp") {
        let mut builder = TunnelBuilder::new(TunnelKind::Tcp);
        apply_common_opts_tcp(&mut builder, opts, parsed);
        Ok(builder)
    } else if same_text(scheme, "tls") {
        let mut builder = TunnelBuilder::new(TunnelKind::Tls);
        apply_common_opts_tls(&mut builder, opts, parsed);
        Ok(builder)
    } else {
        Err(AgentError::UnsupportedScheme(scheme.to_owned()))
    }
}

/// The tunnel that forwards to an upstream: an HTTP tunnel is told the protocol of the upstream.
pub open spec fn forwarding(b: TunnelBuilderView, protocol: Option<Seq<char>>) -> TunnelBuilderView {
    if b.kind is Http {
        TunnelBuilderView { app_protocol: config::set_over(b.app_protocol, protocol), ..b }
    } else {
        b
    }
}

/// Whether `r` is the tunnel that forwards to an upstream at the given URL, or the error that
/// there are no endpoints for the scheme of the endpoint.
pub open spec fn forwards(
    r: Result<(TunnelBuilder, Url), AgentError>,
    o: EndpointOptsView,
    parsed: Option<UrlView>,
    protocol: Option<Seq<char>>,
    to: UrlView,
) -> bool {
    let scheme = endpoint_options::scheme_of(parsed);
    if endpoint_options::is_endpoint_scheme(scheme) {
        r matches Ok((b, url)) && url@ == to && b@ == forwarding(tunnel_for(o, parsed), protocol)
    } else {
        r matches Err(AgentError::UnsupportedScheme(s)) && s@ == scheme
    }
}

/// What an agent must do before it can create an endpoint.
#[derive(Debug, Clone, Copy, PartialEq, Eq, Structural)]
pub enum Readiness {
    /// The agent is connected.
    Ready,
    /// The agent connects first.
    Connect,
}

impl Agent {
    /// Create a new [`AgentBuilder`] to configure an agent.
    pub fn builder() -> (r: AgentBuilder)
        ensures
            r@ == builder::default_builder(),
    {
        AgentBuilder::default()
    }

    /// Whether the agent may dial: only if it is not connected already.
    pub fn check_not_connected(&self) -> (r: Result<(), AgentError>)
        ensures
            self@.session is None ==> r is Ok,
            self@.session is Some ==> r is Err && r->Err_0 is AlreadyConnected,
    {
        if self.session.is_some() {
            Err(AgentError::AlreadyConnected)
        } else {
            Ok(())
        }
    }

    /// Connect to the ngrok service, by what establishing a session came to. Returns the handlers
    /// to call.
    ///
    /// If the agent is already connected, returns an error.
    pub fn connect(&mut self, dialed: Result<Session, ConnectError>, timestamp: Instant) -> (r: Result<
        Vec<EventCall>,
        AgentError,
    >)
        ensures
            match (old(self)@.session, dialed) {
                (Some(_), _) => r is Err && r->Err_0 is AlreadyConnected && *final(self) == *old(
                    self,
                ),
                (None, Err(e)) => r is Err && r->Err_0 == AgentError::Connect(e) && *final(self)
                    == *old(self),
                (None, Ok(session)) => r is Ok && calls_all(
                    r->Ok_0@,
                    old(self)@.event_handlers,
                    (Event::AgentConnectSucceeded { timestamp }),
                ) && final(self)@ == connected(old(self)@, session.id@),
            },
    {
        if self.session.is_some() {
            return Err(AgentError::AlreadyConnected);
        }
        match dialed {
            Ok(session) => {
                self.session = Some(session);
                Ok(self.emit_event(Event::AgentConnectSucceeded { timestamp }))
            },
            Err(e) => Err(AgentError::from(e)),
        }
    }

    /// Disconnect from the ngrok service, by what closing the session came to. Returns the outcome,
    /// and the handlers to call.
    ///
    /// Terminates the current session. If the agent is not connected,
    /// this is a no-op.
    pub fn disconnect(&mut self, closed: Result<(), RpcError>, timestamp: Instant) -> (r: (
        Result<(), AgentError>,
        Vec<EventCall>,
    ))
        ensures
            final(self)@ == disconnected(old(self)@),
            match (old(self)@.session, closed) {
                (Some(_), Err(e)) => r.0 is Err && r.0->Err_0 == AgentError::Rpc(e),
                _ => r.0 is Ok,
            },
            if old(self)@.session is Some {
                calls_all(
                    r.1@,
                    old(self)@.event_handlers,
                    (Event::AgentDisconnected { timestamp, error: None }),
                )
            } else {
                r.1@.len() == 0
            },
    {
        if self.session.is_some() {
            self.session = None;
            self.endpoints = Vec::new();
            assert(self@.endpoints =~= Seq::<EndpointView>::empty());
            let calls: Vec<EventCall> = self.emit_event(
                Event::AgentDisconnected { timestamp, error: None },
            );
            let result: Result<(), AgentError> = match closed {
                Ok(_) => Ok(()),
                Err(e) => Err(AgentError::from(e)),
            };
            (result, calls)
        } else {
            (Ok(()), Vec::new())
        }
    }

    /// Returns information about the current session.
    ///
    /// Returns `None` if the agent is not connected.
    pub fn session(&self) -> (r: Option<AgentSession>)
        ensures
            match self.session {
                Some(s) => r is Some && r->0.of() == s,
                None => r is None,
            },
    {
        match &self.session {
            Some(s) => Some(AgentSession { session: s.clone() }),
            None => None,
        }
    }

    /// Returns a list of all endpoints created by this agent.
    pub fn endpoints(&self) -> (r: Vec<EndpointRef>)
        ensures
            r@.map_values(|e: EndpointRef| e@) == self@.endpoints,
    {
        let mut r: Vec<EndpointRef> = Vec::new();
        let mut i: usize = 0;
        while i < self.endpoints.len()
            invariant
                0 <= i <= self.endpoints.len(),
                r.len() == i,
                forall|j: int| 0 <= j < i ==> (#[trigger] r@[j])@ == self.endpoints@[j]@,
            decreases self.endpoints.len() - i,
        {
            let e: &EndpointRecord = &self.endpoints[i];
            r.push(EndpointRef { id: e.id.clone(), url: e.url.clone() });
            i = i + 1;
        }
        assert(r@.map_values(|e: EndpointRef| e@) =~= self@.endpoints);
        r
    }

    /// What the agent must do before it can create an endpoint: nothing if it is connected; connect
    /// if it may do so by itself.
    pub fn ensure_connected(&self) -> (r: Result<Readiness, AgentError>)
        ensures
            if self@.session is Some {
                r is Ok && r->Ok_0 is Ready
            } else if self@.auto_connect {
                r is Ok && r->Ok_0 is Connect
            } else {
                r is Err && r->Err_0 is NotConnected
            },
    {
        if self.session.is_some() {
            Ok(Readiness::Ready)
        } else if self.auto_connect {
            Ok(Readiness::Connect)
        } else {
            Err(AgentError::NotConnected)
        }
    }

    /// The tunnel to open for a listener with the given options, once the agent is connected.
    ///
    /// The endpoint's protocol is determined by the URL scheme (defaulting to HTTPS).
    pub fn listen_tunnel(&self, opts: Vec<EndpointOption>) -> (r: Result<TunnelBuilder, AgentError>)
        ensures
            if self@.session is Some {
                let o = endpoint_options::applied(opts@.map_values(|o: EndpointOption| o@));
                opens(r, o, endpoint_options::parsed_url(o.url))
            } else {
                r is Err && r->Err_0 is NotConnected
            },
    {
        let endpoint_opts: EndpointOpts = EndpointOpts::apply_options(opts);
        if self.session.is_none() {
            return Err(AgentError::NotConnected);
        }
        let parsed: Option<Url> = endpoint_opts.parse_url();
        tunnel_of(&endpoint_opts, &parsed)
    }

    /// Listen for connections on a new endpoint, by what opening its tunnel came to.
    pub fn listen(&mut self, kind: TunnelKind, opened: Result<Tunnel, RpcError>) -> (r: Result<
        AgentEndpointListener,
        AgentError,
    >)
        ensures
            match opened {
                Ok(t) => r is Ok && r->Ok_0.tunnel() == t && r->Ok_0.kind() == kind && final(self)@
                    == registered(old(self)@, t.id@, Some(t.url@)),
                Err(e) => r is Err && r->Err_0 == AgentError::Rpc(e) && *final(self) == *old(self),
            },
    {
        match opened {
            Ok(tunnel) => {
                self.register_endpoint(tunnel.id.as_str(), Some(tunnel.url.as_str()));
                Ok(
                    match kind {
                        TunnelKind::Http => AgentEndpointListener::Http(tunnel),
                        TunnelKind::Tcp => AgentEndpointListener::Tcp(tunnel),
                        TunnelKind::Tls => AgentEndpointListener::Tls(tunnel),
                    },
                )
            },
            Err(e) => Err(AgentError::from(e)),
        }
    }

    /// The tunnel to open for a forwarder with the given options, and the URL of its upstream, once
    /// the agent is connected.
    pub fn forward_tunnel(&self, upstream: &Upstream, opts: Vec<EndpointOption>) -> (r: Result<
        (TunnelBuilder, Url),
        AgentError,
    >)
        ensures
            match upstream::upstream_parse(upstream@.addr) {
                Err(message) => r matches Err(AgentError::InvalidUrl(m)) && m@ == message,
                Ok(url) => if self@.session is Some {
                    let o = endpoint_options::applied(opts@.map_values(|o: EndpointOption| o@));
                    forwards(
                        r,
                        o,
                        endpoint_options::parsed_url(o.url),
                        upstream@.protocol,
                        url,
                    )
                } else {
                    r is Err && r->Err_0 is NotConnected
                },
            },
    {
        let endpoint_opts: EndpointOpts = EndpointOpts::apply_options(opts);
        let to_url: Url = match upstream.to_url() {
            Ok(url) => url,
            Err(e) => return Err(AgentError::InvalidUrl(e.message)),
        };
        if self.session.is_none() {
            return Err(AgentError::NotConnected);
        }
        let parsed: Option<Url> = endpoint_opts.parse_url();
        let mut builder: TunnelBuilder = match tunnel_of(&endpoint_opts, &parsed) {
            Ok(builder) => builder,
            Err(e) => return Err(e),
        };
        if builder.kind == TunnelKind::Http {
            set_text(&mut builder.app_protocol, &upstream.protocol);
        }
        Ok((builder, to_url))
    }

    /// Forward connections to an upstream service, by what opening the tunnel came to.
    pub fn forward(&mut self, kind: TunnelKind, opened: Result<Tunnel, RpcError>) -> (r: Result<
        AgentEndpointForwarder,
        AgentError,
    >)
        ensures
            match opened {
                Ok(t) => r is Ok && r->Ok_0.tunnel() == t && r->Ok_0.kind() == kind && final(self)@
                    == registered(old(self)@, t.id@, Some(t.url@)),
                Err(e) => r is Err && r->Err_0 == AgentError::Rpc(e) && *final(self) == *old(self),
            },
    {
        match opened {
            Ok(tunnel) => {
                self.register_endpoint(tunnel.id.as_str(), Some(tunnel.url.as_str()));
                Ok(
                    match kind {
                        TunnelKind::Http => AgentEndpointForwarder::Http(tunnel),
                        TunnelKind::Tcp => AgentEndpointForwarder::Tcp(tunnel),
                        TunnelKind::Tls => AgentEndpointForwarder::Tls(tunnel),
                    },
                )
            },
            Err(e) => Err(AgentError::from(e)),
        }
    }

    /// Register an endpoint.
    pub fn register_endpoint(&mut self, id: &str, url: Option<&str>)
        ensures
            final(self)@ == registered(
                old(self)@,
                id@,
                match url {
                    Some(u) => Some(u@),
                    None => None,
                },
            ),
    {
        let record = EndpointRecord {
            id: id.to_owned(),
            url: match url {
                Some(u) => Some(u.to_owned()),
                None => None,
            },
        };
        let ghost before = self@.endpoints;
        self.endpoints.push(record);
        assert(self@.endpoints =~= before.push(record@));
    }

    /// The calls that hand an event to all handlers.
    pub fn emit_event(&self, event: Event) -> (r: Vec<EventCall>)
        ensures
            calls_all(r@, self@.event_handlers, event),
    {
        let mut r: Vec<EventCall> = Vec::new();
        let mut i: usize = 0;
        while i < self.event_handlers.len()
            invariant
                0 <= i <= self.event_handlers.len(),
                calls_all(r@, self.event_handlers@.take(i as int), event),
            decreases self.event_handlers.len() - i,
        {
            r.push(EventCall { handler: self.event_handlers[i], event: event.clone() });
            i = i + 1;
        }
        assert(self.event_handlers@.take(self.event_handlers@.len() as int)
            =~= self.event_handlers@);
        r
    }
}

/// An endpoint listener created by the agent.
///
/// This enum wraps the protocol-specific tunnels, providing a unified
/// interface.
#[derive(Debug)]
pub enum AgentEndpointListener {
    /// An HTTP endpoint listener.
    Http(Tunnel),
    /// A TCP endpoint listener.
    Tcp(Tunnel),
    /// A TLS endpoint listener.
    Tls(Tunnel),
}

impl AgentEndpointListener {
    /// The tunnel.
    pub open spec fn tunnel(&self) -> Tunnel {
        match self {
            AgentEndpointListener::Http(t) => *t,
            AgentEndpointListener::Tcp(t) => *t,
            AgentEndpointListener::Tls(t) => *t,
        }
    }

    /// The kind of the tunnel.
    pub open spec fn kind(&self) -> TunnelKind {
        match self {
            AgentEndpointListener::Http(_) => TunnelKind::Http,
            AgentEndpointListener::Tcp(_) => TunnelKind::Tcp,
            AgentEndpointListener::Tls(_) => TunnelKind::Tls,
        }
    }

    /// Returns the endpoint's unique ID.
    pub fn id(&self) -> (r: &str)
        ensures
            r@ == self.tunnel().id@,
    {
        match self {
            AgentEndpointListener::Http(t) => t.id.as_str(),
            AgentEndpointListener::Tcp(t) => t.id.as_str(),
            AgentEndpointListener::Tls(t) => t.id.as_str(),
        }
    }

    /// Returns the endpoint's URL.
    pub fn url(&self) -> (r: &str)
        ensures
            r@ == self.tunnel().url@,
    {
        match self {
            AgentEndpointListener::Http(t) => t.url.as_str(),
            AgentEndpointListener::Tcp(t) => t.url.as_str(),
            AgentEndpointListener::Tls(t) => t.url.as_str(),
        }
    }

    /// Returns the endpoint's protocol.
    pub fn protocol(&self) -> (r: &str)
        ensures
            r@ == self.tunnel().proto@,
    {
        match self {
            AgentEndpointListener::Http(t) => t.proto.as_str(),
            AgentEndpointListener::Tcp(t) => t.proto.as_str(),
            AgentEndpointListener::Tls(t) => t.proto.as_str(),
        }
    }

    /// Returns the endpoint's metadata.
    pub fn metadata(&self) -> (r: &str)
        ensures
            r@ == self.tunnel().metadata@,
    {
        match self {
            AgentEndpointListener::Http(t) => t.metadata.as_str(),
            AgentEndpointListener::Tcp(t) => t.metadata.as_str(),
            AgentEndpointListener::Tls(t) => t.metadata.as_str(),
        }
    }
}

/// An endpoint forwarder created by the agent.
///
/// This enum wraps the protocol-specific tunnels.
#[derive(Debug)]
pub enum AgentEndpointForwarder {
    /// An HTTP endpoint forwarder.
    Http(Tunnel),
    /// A TCP endpoint forwarder.
    Tcp(Tunnel),
    /// A TLS endpoint forwarder.
    Tls(Tunnel),
}

impl AgentEndpointForwarder {
    /// The tunnel.
    pub open spec fn tunnel(&self) -> Tunnel {
        match self {
            AgentEndpointForwarder::Http(t) => *t,
            AgentEndpointForwarder::Tcp(t) => *t,
            AgentEndpointForwarder::Tls(t) => *t,
        }
    }

    /// The kind of the tunnel.
    pub open spec fn kind(&self) -> TunnelKind {
        match self {
            AgentEndpointForwarder::Http(_) => TunnelKind::Http,
            AgentEndpointForwarder::Tcp(_) => TunnelKind::Tcp,
            AgentEndpointForwarder::Tls(_) => TunnelKind::Tls,
        }
    }

    /// Returns the endpoint's unique ID.
    pub fn id(&self) -> (r: &str)
        ensures
            r@ == self.tunnel().id@,
    {
        match self {
            AgentEndpointForwarder::Http(t) => t.id.as_str(),
            AgentEndpointForwarder::Tcp(t) => t.id.as_str(),
            AgentEndpointForwarder::Tls(t) => t.id.as_str(),
        }
    }

    /// Returns the endpoint's URL.
    pub fn url(&self) -> (r: &str)
        ensures
            r@ == self.tunnel().url@,
    {
        match self {
            AgentEndpointForwarder::Http(t) => t.url.as_str(),
            AgentEndpointForwarder::Tcp(t) => t.url.as_str(),
            AgentEndpointForwarder::Tls(t) => t.url.as_str(),
        }
    }

    /// Returns the endpoint's metadata.
    pub fn metadata(&self) -> (r: &str)
        ensures
            r@ == self.tunnel().metadata@,
    {
        match self {
            AgentEndpointForwarder::Http(t) => t.metadata.as_str(),
            AgentEndpointForwarder::Tcp(t) => t.metadata.as_str(),
            AgentEndpointForwarder::Tls(t) => t.metadata.as_str(),
        }
    }
}

/// Disconnecting leaves no session and no endpoint of a connected agent, whatever was created while
/// it was connected; doing it again changes nothing; and the agent can then connect as before.
pub proof fn disconnect_undoes_connect(v: AgentView, session_id: Seq<char>, endpoints: Seq<EndpointView>)
    requires
        v.session is None,
        v.endpoints.len() == 0,
    ensures
        disconnected(AgentView { endpoints, ..connected(v, session_id) }) == v,
        disconnected(disconnected(connected(v, session_id))) == disconnected(connected(v, session_id)),
{
    assert(v.endpoints =~= Seq::<EndpointView>::empty());
}

/// Of several bindings only the first has an effect.
pub proof fn only_the_first_binding_is_used(
    o: EndpointOptsView,
    parsed: Option<UrlView>,
    others: Seq<Seq<char>>,
)
    requires
        o.bindings.len() > 0,
    ensures
        tunnel_for(EndpointOptsView { bindings: o.bindings + others, ..o }, parsed) == tunnel_for(
            o,
            parsed,
        ),
        tunnel_for(o, parsed).binding == Some(o.bindings[0]),
{
    assert((o.bindings + others)[0] == o.bindings[0]);
}

/// The scheme of the URL determines the kind of the tunnel, and HTTPS is the default; its host and
/// port are used as the domain or, for TCP, as the remote address.
pub proof fn scheme_determines_the_tunnel(o: EndpointOptsView, parsed: Option<UrlView>)
    ensures
        ({
            let scheme = endpoint_options::scheme_of(parsed);
            let t = tunnel_for(o, parsed);
            let at = match parsed {
                Some(u) => host_port(u),
                None => None,
            };
            &&& scheme == "tcp"@ ==> t.kind is Tcp && t.remote_addr == at && t.domain is None
            &&& scheme == "tls"@ ==> t.kind is Tls && t.domain == at && t.remote_addr is None
            &&& scheme == "http"@ || scheme == "https"@ ==> t.kind is Http && t.domain == at
                && t.remote_addr is None
        }),
{
    reveal_strlit("http");
    reveal_strlit("https");
    reveal_strlit("tcp");
    reveal_strlit("tls");
    assert("http"@[1] == 't' && "https"@[1] == 't' && "tcp"@[1] == 'c' && "tls"@[1] == 'l');
}

/// The tunnel that is opened asks for each option with exactly the value that was set, and leaves to
/// the service what was not set; an HTTP tunnel at a URL also asks for its scheme.
pub proof fn opened_tunnel_asks_for_what_was_set(
    t: TunnelBuilder,
    o: EndpointOpts,
    parsed: Option<UrlView>,
)
    requires
        opens(Ok(t), o@, parsed),
    ensures
        match (t.metadata, o.metadata) {
            (Some(a), Some(b)) => a@ == b@,
            (None, None) => true,
            _ => false,
        },
        match (t.traffic_policy, o.traffic_policy) {
            (Some(a), Some(b)) => a@ == b@,
            (None, None) => true,
            _ => false,
        },
        t.pooling_enabled == o.pooling_enabled,
        t.binding is Some == (o.bindings@.len() > 0),
        t.binding matches Some(binding) ==> binding@ == o.bindings@[0]@,
        t.kind is Http && parsed is Some && parsed->0.scheme == "http"@ ==> t.scheme == Some(
            Scheme::HTTP,
        ),
        t.kind is Http && parsed is Some && parsed->0.scheme != "http"@ ==> t.scheme == Some(
            Scheme::HTTPS,
        ),
        !(t.kind is Http) || parsed is None ==> t.scheme is None,
        t.app_protocol is None && t.forwards_to is None && t.verify_upstream_tls is None,
{
    if o.bindings@.len() > 0 {
        assert(o@.bindings[0] == o.bindings@[0]@);
    }
}

/// An endpoint at a URL with a host is opened if and only if its scheme is one of four, which says of
/// what kind it is; the host, with the port if the URL names one, is the domain of an HTTP or TLS
/// tunnel and the remote address of a TCP tunnel. Any other scheme is refused, and the error names
/// it. An endpoint without a URL is one of HTTP at no particular domain.
pub proof fn scheme_of_the_url_decides(
    r: Result<TunnelBuilder, AgentError>,
    o: EndpointOptsView,
    parsed: Option<UrlView>,
)
    requires
        opens(r, o, parsed),
        parsed matches Some(u) ==> u.host is Some,
    ensures
        parsed is None ==> (r matches Ok(t) && t.kind is Http && t.domain is None && t.remote_addr
            is None),
        parsed matches Some(u) ==> {
            let at = match u.port {
                Some(port) => u.host->0 + seq![':'] + text::decimal(port as nat),
                None => u.host->0,
            };
            let http = u.scheme == "http"@ || u.scheme == "https"@;
            &&& http ==> (r matches Ok(t) && t.kind is Http && t@.domain == Some(at)
                && t.remote_addr is None)
            &&& u.scheme == "tls"@ ==> (r matches Ok(t) && t.kind is Tls && t@.domain == Some(at)
                && t.remote_addr is None)
            &&& u.scheme == "tcp"@ ==> (r matches Ok(t) && t.kind is Tcp && t@.remote_addr == Some(
                at,
            ) && t.domain is None)
            &&& !http && u.scheme != "tls"@ && u.scheme != "tcp"@ ==> (r matches Err(
                AgentError::UnsupportedScheme(s),
            ) && s@ == u.scheme)
        },
{
    reveal_strlit("http");
    reveal_strlit("https");
    reveal_strlit("tcp");
    reveal_strlit("tls");
    assert("http"@[1] == 't' && "https"@[1] == 't' && "tcp"@[1] == 'c' && "tls"@[1] == 'l');
    if let Some(u) = parsed {
        if let Some(port) = u.port {
            text::host_and_port_are_joined_by_a_colon(u.host->0, port);
        }
    }
}

/// An endpoint at a URL that names no host is one of HTTP unless the URL begins with `tcp://` or
/// `tls://`, and is at no particular domain or address.
pub proof fn url_without_a_host_is_at_no_domain(
    r: Result<TunnelBuilder, AgentError>,
    o: EndpointOptsView,
    u: UrlView,
)
    requires
        u.host is None,
        opens(r, o, Some(u)),
    ensures
        r matches Ok(t) && t.domain is None && t.remote_addr is None && t.kind == (if u.scheme
            == "tcp"@ && (u.scheme + "://"@).is_prefix_of(u.text) {
            TunnelKind::Tcp
        } else if u.scheme == "tls"@ && (u.scheme + "://"@).is_prefix_of(u.text) {
            TunnelKind::Tls
        } else {
            TunnelKind::Http
        }),
{
    reveal_strlit("http");
    reveal_strlit("https");
    reveal_strlit("tcp");
    reveal_strlit("tls");
    assert("http"@[1] == 't' && "https"@[1] == 't' && "tcp"@[1] == 'c' && "tls"@[1] == 'l');
}

/// A forwarder opens the tunnel that a listener with the same options would open, and goes to the
/// URL of its upstream. Only an HTTP tunnel is told the protocol of the upstream, and told exactly
/// that.
pub proof fn forwarder_opens_the_tunnel_of_a_listener(
    r: Result<(TunnelBuilder, Url), AgentError>,
    listens: Result<TunnelBuilder, AgentError>,
    o: EndpointOptsView,
    parsed: Option<UrlView>,
    protocol: Option<Seq<char>>,
    to: UrlView,
)
    requires
        forwards(r, o, parsed, protocol, to),
        opens(listens, o, parsed),
    ensures
        r is Ok <==> listens is Ok,
        r is Ok ==> {
            let (b, url) = r->Ok_0;
            let l = listens->Ok_0;
            &&& url@ == to
            &&& b.kind == l.kind && b.scheme == l.scheme && b.pooling_enabled == l.pooling_enabled
            &&& b@.domain == l@.domain && b@.remote_addr == l@.remote_addr
            &&& b@.metadata == l@.metadata && b@.traffic_policy == l@.traffic_policy
            &&& b@.binding == l@.binding && b@.forwards_to == l@.forwards_to
            &&& b@.verify_upstream_tls == l@.verify_upstream_tls
            &&& b.kind is Http ==> b@.app_protocol == protocol
            &&& !(b.kind is Http) ==> b.app_protocol is None
        },
        r matches Err(e) ==> (e matches AgentError::UnsupportedScheme(s) && listens matches Err(
            AgentError::UnsupportedScheme(t),
        ) && s@ == t@),
{
}

/// The address of a URL is its host, with a colon and the port behind it where the URL names one.
pub proof fn address_is_host_and_port(u: UrlView, host: Seq<char>, port: u16)
    requires
        u.host == Some(host),
    ensures
        u.port == Some(port) ==> host_port(u) == Some(host + seq![':'] + text::decimal(port as nat)),
        u.port is None ==> host_port(u) == Some(host),
        host_port(UrlView { host: None, ..u }) is None,
{
    text::host_and_port_are_joined_by_a_colon(host, port);
}

/// Connecting gives the agent the session that was established, and changes nothing else.
pub proof fn connecting_sets_the_session(v: AgentView, session_id: Seq<char>)
    ensures
        connected(v, session_id).session == Some(session_id),
        connected(v, session_id).session_builder == v.session_builder,
        connected(v, session_id).auto_connect == v.auto_connect,
        connected(v, session_id).event_handlers == v.event_handlers,
        connected(v, session_id).endpoints == v.endpoints,
{
}

/// Disconnecting a connected agent takes its session and its endpoints, and nothing else. One that is
/// not connected stays as it is.
pub proof fn disconnecting_takes_session_and_endpoints(v: AgentView)
    ensures
        disconnected(v).session is None,
        v.session is Some ==> disconnected(v).endpoints.len() == 0,
        v.session is None ==> disconnected(v) == v,
        disconnected(v).session_builder == v.session_builder,
        disconnected(v).auto_connect == v.auto_connect,
        disconnected(v).event_handlers == v.event_handlers,
{
}

/// A new endpoint is listed behind the others, under its ID and its URL. Nothing else changes.
pub proof fn registered_endpoint_is_listed(v: AgentView, id: Seq<char>, url: Option<Seq<char>>)
    ensures
        ({
            let after = registered(v, id, url);
            &&& after.endpoints.len() == v.endpoints.len() + 1
            &&& after.endpoints.drop_last() == v.endpoints
            &&& after.endpoints.last().id == id && after.endpoints.last().url == url
            &&& after.session == v.session && after.session_builder == v.session_builder
            &&& after.auto_connect == v.auto_connect && after.event_handlers == v.event_handlers
        }),
{
    assert(registered(v, id, url).endpoints.drop_last() =~= v.endpoints);
}

/// An agent that was built is not connected, has no endpoint, and is set up as its builder says.
pub proof fn built_agent_is_not_connected(b: AgentBuilderView)
    ensures
        new_agent(b).session is None,
        new_agent(b).endpoints.len() == 0,
        new_agent(b).session_builder == b.session_builder,
        new_agent(b).auto_connect == b.auto_connect,
        new_agent(b).event_handlers == b.event_handlers,
{
}

/// Handing out an event calls every handler exactly once, in the order of registration, and nobody
/// else; each receives that event.
pub proof fn every_handler_is_called_once(
    calls: Seq<EventCall>,
    handlers: Seq<HandlerId>,
    event: Event,
)
    requires
        calls_all(calls, handlers, event),
    ensures
        calls.map_values(|c: EventCall| c.handler) == handlers,
        forall|i: int| 0 <= i < calls.len() ==> (#[trigger] calls[i]).event == event,
{
    assert(calls.map_values(|c: EventCall| c.handler) =~= handlers);
}

/// A handle is on the tunnel that it wraps, of the kind that it says.
pub proof fn handle_is_on_its_tunnel(t: Tunnel)
    ensures
        AgentEndpointListener::Http(t).tunnel() == t && AgentEndpointListener::Http(t).kind() is Http,
        AgentEndpointListener::Tcp(t).tunnel() == t && AgentEndpointListener::Tcp(t).kind() is Tcp,
        AgentEndpointListener::Tls(t).tunnel() == t && AgentEndpointListener::Tls(t).kind() is Tls,
        AgentEndpointForwarder::Http(t).tunnel() == t && AgentEndpointForwarder::Http(t).kind()
            is Http,
        AgentEndpointForwarder::Tcp(t).tunnel() == t && AgentEndpointForwarder::Tcp(t).kind() is Tcp,
        AgentEndpointForwarder::Tls(t).tunnel() == t && AgentEndpointForwarder::Tls(t).kind() is Tls,
{
}

/// The description of an error ends with what the error carries, and errors that carry nothing are
/// described differently.
pub proof fn error_is_described_by_what_it_carries(e: AgentError)
    ensures
        e matches AgentError::Connect(c) ==> c.message@.is_suffix_of(e.text()),
        e matches AgentError::Rpc(c) ==> c.message@.is_suffix_of(e.text()),
        e matches AgentError::InvalidUrl(s) ==> s@.is_suffix_of(e.text()),
        e matches AgentError::UnsupportedScheme(s) ==> s@.is_suffix_of(e.text()),
        AgentError::NotConnected.text() != AgentError::AlreadyConnected.text(),
        e.text().len() > 0,
{
    reveal_strlit("connection error: ");
    reveal_strlit("rpc error: ");
    reveal_strlit("invalid url: ");
    reveal_strlit("unsupported endpoint URL scheme: ");
    reveal_strlit("agent not connected, call connect() first");
    reveal_strlit("agent already connected");
    assert("agent not connected, call connect() first"@[6] == 'n');
    assert("agent already connected"@[6] == 'a');
}

/// An agent is what it holds: its session by ID, its handlers and its endpoints in order.
pub proof fn agent_is_what_it_holds(a: Agent)
    ensures
        a.session matches Some(s) ==> a@.session == Some(s.id@),
        a.session is None ==> a@.session is None,
        a@.auto_connect == a.auto_connect,
        a@.event_handlers == a.event_handlers@,
        a@.session_builder == a.session_builder@,
        a@.endpoints.len() == a.endpoints@.len(),
        forall|i: int|
            0 <= i < a.endpoints@.len() ==> (#[trigger] a@.endpoints[i]).id == a.endpoints@[i].id@,
{
}

/// An HTTP tunnel takes every option that was set, the address of the URL as its domain, and the scheme
/// of the URL. What was not set stays.
pub proof fn http_tunnel_takes_its_options(b: &mut TunnelBuilder, opts: &EndpointOpts, parsed: &Option<Url>)
    requires
        call_ensures(apply_common_opts_http, (b, opts, parsed), ()),
    ensures
        match opts.metadata {
            Some(t) => final(b)@.metadata == Some(t@),
            None => final(b)@.metadata == old(b)@.metadata,
        },
        match opts.traffic_policy {
            Some(t) => final(b)@.traffic_policy == Some(t@),
            None => final(b)@.traffic_policy == old(b)@.traffic_policy,
        },
        opts.pooling_enabled is Some ==> final(b).pooling_enabled == opts.pooling_enabled,
        opts.pooling_enabled is None ==> final(b).pooling_enabled == old(b).pooling_enabled,
        opts.bindings@.len() > 0 ==> final(b)@.binding == Some(opts.bindings@[0]@),
        opts.bindings@.len() == 0 ==> final(b)@.binding == old(b)@.binding,
        *parsed matches Some(u) ==> match (u.host, u.port) {
            (Some(host), Some(port)) => final(b)@.domain == Some(
                host@ + seq![':'] + text::decimal(port as nat),
            ),
            (Some(host), None) => final(b)@.domain == Some(host@),
            (None, _) => final(b)@.domain == old(b)@.domain,
        },
        *parsed is None ==> final(b)@.domain == old(b)@.domain,
        final(b)@.remote_addr == old(b)@.remote_addr,
        *parsed matches Some(u) ==> final(b).scheme == Some(
            if u.scheme@ == "http"@ {
                Scheme::HTTP
            } else {
                Scheme::HTTPS
            },
        ),
        *parsed is None ==> final(b).scheme == old(b).scheme,
        final(b).kind == old(b).kind && final(b)@.app_protocol == old(b)@.app_protocol,
        final(b)@.forwards_to == old(b)@.forwards_to,
        final(b).verify_upstream_tls == old(b).verify_upstream_tls,
{
    if opts.bindings@.len() > 0 {
        assert(opts@.bindings[0] == opts.bindings@[0]@);
    }
    if let Some(u) = *parsed {
        if let (Some(host), Some(port)) = (u.host, u.port) {
            text::host_and_port_are_joined_by_a_colon(host@, port);
        }
    }
}

/// A TCP tunnel takes every option that was set, and the address of the URL as its remote address. What
/// was not set stays.
pub proof fn tcp_tunnel_takes_its_options(b: &mut TunnelBuilder, opts: &EndpointOpts, parsed: &Option<Url>)
    requires
        call_ensures(apply_common_opts_tcp, (b, opts, parsed), ()),
    ensures
        match opts.metadata {
            Some(t) => final(b)@.metadata == Some(t@),
            None => final(b)@.metadata == old(b)@.metadata,
        },
        match opts.traffic_policy {
            Some(t) => final(b)@.traffic_policy == Some(t@),
            None => final(b)@.traffic_policy == old(b)@.traffic_policy,
        },
        opts.pooling_enabled is Some ==> final(b).pooling_enabled == opts.pooling_enabled,
        opts.pooling_enabled is None ==> final(b).pooling_enabled == old(b).pooling_enabled,
        opts.bindings@.len() > 0 ==> final(b)@.binding == Some(opts.bindings@[0]@),
        opts.bindings@.len() == 0 ==> final(b)@.binding == old(b)@.binding,
        *parsed matches Some(u) ==> match (u.host, u.port) {
            (Some(host), Some(port)) => final(b)@.remote_addr == Some(
                host@ + seq![':'] + text::decimal(port as nat),
            ),
            (Some(host), None) => final(b)@.remote_addr == Some(host@),
            (None, _) => final(b)@.remote_addr == old(b)@.remote_addr,
        },
        *parsed is None ==> final(b)@.remote_addr == old(b)@.remote_addr,
        final(b)@.domain == old(b)@.domain,
        final(b).scheme == old(b).scheme,
        final(b).kind == old(b).kind && final(b)@.app_protocol == old(b)@.app_protocol,
        final(b)@.forwards_to == old(b)@.forwards_to,
        final(b).verify_upstream_tls == old(b).verify_upstream_tls,
{
    if opts.bindings@.len() > 0 {
        assert(opts@.bindings[0] == opts.bindings@[0]@);
    }
    if let Some(u) = *parsed {
        if let (Some(host), Some(port)) = (u.host, u.port) {
            text::host_and_port_are_joined_by_a_colon(host@, port);
        }
    }
}

/// A TLS tunnel takes every option that was set, and the address of the URL as its domain. What was not
/// set stays.
pub proof fn tls_tunnel_takes_its_options(b: &mut TunnelBuilder, opts: &EndpointOpts, parsed: &Option<Url>)
    requires
        call_ensures(apply_common_opts_tls, (b, opts, parsed), ()),
    ensures
        match opts.metadata {
            Some(t) => final(b)@.metadata == Some(t@),
            None => final(b)@.metadata == old(b)@.metadata,
        },
        match opts.traffic_policy {
            Some(t) => final(b)@.traffic_policy == Some(t@),
            None => final(b)@.traffic_policy == old(b)@.traffic_policy,
        },
        opts.pooling_enabled is Some ==> final(b).pooling_enabled == opts.pooling_enabled,
        opts.pooling_enabled is None ==> final(b).pooling_enabled == old(b).pooling_enabled,
        opts.bindings@.len() > 0 ==> final(b)@.binding == Some(opts.bindings@[0]@),
        opts.bindings@.len() == 0 ==> final(b)@.binding == old(b)@.binding,
        *parsed matches Some(u) ==> match (u.host, u.port) {
            (Some(host), Some(port)) => final(b)@.domain == Some(
                host@ + seq![':'] + text::decimal(port as nat),
            ),
            (Some(host), None) => final(b)@.domain == Some(host@),
            (None, _) => final(b)@.domain == old(b)@.domain,
        },
        *parsed is None ==> final(b)@.domain == old(b)@.domain,
        final(b)@.remote_addr == old(b)@.remote_addr,
        final(b).scheme == old(b).scheme,
        final(b).kind == old(b).kind && final(b)@.app_protocol == old(b)@.app_protocol,
        final(b)@.forwards_to == old(b)@.forwards_to,
        final(b).verify_upstream_tls == old(b).verify_upstream_tls,
{
    if opts.bindings@.len() > 0 {
        assert(opts@.bindings[0] == opts.bindings@[0]@);
    }
    if let Some(u) = *parsed {
        if let (Some(host), Some(port)) = (u.host, u.port) {
            text::host_and_port_are_joined_by_a_colon(host@, port);
        }
    }
}

/// What is opened for an endpoint, by its URL: a tunnel of the kind that the scheme names, at the host
/// of the URL, or an error that names the scheme.
pub proof fn tunnel_is_opened_at_the_url(
    opts: &EndpointOpts,
    parsed: &Option<Url>,
    r: Result<TunnelBuilder, AgentError>,
)
    requires
        call_ensures(tunnel_of, (opts, parsed), r),
        *parsed matches Some(u) ==> u.host is Some,
    ensures
        *parsed is None ==> (r matches Ok(t) && t.kind is Http && t.domain is None),
        *parsed matches Some(u) ==> {
            let http = u.scheme@ == "http"@ || u.scheme@ == "https"@;
            &&& r is Ok <==> http || u.scheme@ == "tcp"@ || u.scheme@ == "tls"@
            &&& r matches Ok(t) ==> (t.kind is Http <==> http) && (t.kind is Tcp <==> u.scheme@
                == "tcp"@) && (t.kind is Tls <==> u.scheme@ == "tls"@)
            &&& r matches Err(e) ==> (e matches AgentError::UnsupportedScheme(s) && s@ == u.scheme@)
        },
        r matches Ok(t) ==> t@.metadata == opts@.metadata && t@.traffic_policy
            == opts@.traffic_policy && t.pooling_enabled == opts.pooling_enabled,
{
    reveal_strlit("http");
    reveal_strlit("https");
    reveal_strlit("tcp");
    reveal_strlit("tls");
    assert("http"@[1] == 't' && "https"@[1] == 't' && "tcp"@[1] == 'c' && "tls"@[1] == 'l');
    scheme_of_the_url_decides(r, opts@, urls::maybe(*parsed));
    if let Ok(t) = r {
        opened_tunnel_asks_for_what_was_set(t, *opts, urls::maybe(*parsed));
    }
}

/// An agent without a session opens nothing; one with a session opens the tunnel for the options as
/// they were applied.
pub proof fn connected_agent_opens_tunnels(
    agent: &Agent,
    opts: Vec<EndpointOption>,
    r: Result<TunnelBuilder, AgentError>,
    applied: EndpointOpts,
)
    requires
        call_ensures(Agent::listen_tunnel, (agent, opts), r),
        call_ensures(EndpointOpts::apply_options, (opts,), applied),
    ensures
        agent.session is None ==> (r matches Err(AgentError::NotConnected)),
        agent.session is Some ==> opens(r, applied@, endpoint_options::parsed_url(applied@.url)),
        r matches Ok(t) ==> t@.metadata == applied@.metadata && t@.traffic_policy
            == applied@.traffic_policy && t.pooling_enabled == applied.pooling_enabled,
{
    if agent.session is Some {
        if let Ok(t) = r {
            opened_tunnel_asks_for_what_was_set(
                t,
                applied,
                endpoint_options::parsed_url(applied@.url),
            );
        }
    }
}

/// A forwarder goes to the URL that its upstream stands for. It is refused where that is none, and
/// without a session.
pub proof fn connected_agent_forwards_to_the_upstream(
    agent: &Agent,
    to: &Upstream,
    opts: Vec<EndpointOption>,
    r: Result<(TunnelBuilder, Url), AgentError>,
    url: Result<Url, urls::ParseError>,
)
    requires
        call_ensures(Agent::forward_tunnel, (agent, to, opts), r),
        call_ensures(Upstream::to_url, (to,), url),
    ensures
        url matches Err(e) ==> (r matches Err(AgentError::InvalidUrl(m)) && m@ == e.message@),
        url is Ok && agent.session is None ==> (r matches Err(AgentError::NotConnected)),
        r matches Ok((b, u)) ==> url is Ok && u@ == url->Ok_0@ && agent.session is Some,
        r matches Ok((b, u)) ==> (b.kind is Http ==> b@.app_protocol == to@.protocol),
        r matches Ok((b, u)) ==> (!(b.kind is Http) ==> b.app_protocol is None),
{
}

/// Opening an endpoint registers it under the ID and URL of its tunnel, behind the others, and gives
/// a handle on that tunnel of the kind that was opened; if opening failed, nothing is registered.
pub proof fn opened_endpoint_is_registered(
    agent: &mut Agent,
    kind: TunnelKind,
    opened: Result<Tunnel, RpcError>,
    r: Result<AgentEndpointListener, AgentError>,
)
    requires
        call_ensures(Agent::listen, (agent, kind, opened), r),
    ensures
        opened matches Ok(t) ==> {
            let e = final(agent)@.endpoints.last();
            &&& r is Ok && r->Ok_0.tunnel() == t && r->Ok_0.kind() == kind
            &&& final(agent)@.endpoints == old(agent)@.endpoints.push(e)
            &&& e.id == t.id@ && e.url == Some(t.url@)
            &&& final(agent)@.session == old(agent)@.session
        },
        opened matches Err(e) ==> *final(agent) == *old(agent) && r == Err::<
            AgentEndpointListener,
            AgentError,
        >(AgentError::Rpc(e)),
{
}

/// Opening a forwarder registers it under the ID and URL of its tunnel, behind the others, and gives a
/// handle on that tunnel of the kind that was opened; if opening failed, nothing is registered.
pub proof fn opened_forwarder_is_registered(
    agent: &mut Agent,
    kind: TunnelKind,
    opened: Result<Tunnel, RpcError>,
    r: Result<AgentEndpointForwarder, AgentError>,
)
    requires
        call_ensures(Agent::forward, (agent, kind, opened), r),
    ensures
        opened matches Ok(t) ==> {
            let e = final(agent)@.endpoints.last();
            &&& r is Ok && r->Ok_0.tunnel() == t && r->Ok_0.kind() == kind
            &&& final(agent)@.endpoints == old(agent)@.endpoints.push(e)
            &&& e.id == t.id@ && e.url == Some(t.url@)
            &&& final(agent)@.session == old(agent)@.session
        },
        opened matches Err(e) ==> *final(agent) == *old(agent) && r == Err::<
            AgentEndpointForwarder,
            AgentError,
        >(AgentError::Rpc(e)),
{
}

/// An agent connects only while it is not connected. It then has the session that was established,
/// and every handler is told once, in order.
pub proof fn agent_connects_once(
    agent: &mut Agent,
    dialed: Result<Session, ConnectError>,
    at: Instant,
    r: Result<Vec<EventCall>, AgentError>,
)
    requires
        call_ensures(Agent::connect, (agent, dialed, at), r),
    ensures
        r is Ok <==> old(agent)@.session is None && dialed is Ok,
        r is Err ==> *final(agent) == *old(agent),
        old(agent)@.session is Some ==> (r matches Err(AgentError::AlreadyConnected)),
        r matches Ok(calls) ==> {
            &&& final(agent)@.session == Some(dialed->Ok_0.id@)
            &&& final(agent)@.endpoints == old(agent)@.endpoints
            &&& calls@.len() == old(agent)@.event_handlers.len()
            &&& forall|i: int|
                0 <= i < calls@.len() ==> (#[trigger] calls@[i]).handler == old(agent)@.event_handlers[i] && calls@[i].event == (Event::AgentConnectSucceeded {
                    timestamp: at,
                })
        },
{
}

/// Disconnecting leaves no session and, if there was one, no endpoint, whether or not closing the
/// session succeeded; every handler is then told once, in order. Without a session nothing happens.
pub proof fn agent_disconnects_whatever_closing_came_to(
    agent: &mut Agent,
    closed: Result<(), RpcError>,
    at: Instant,
    r: (Result<(), AgentError>, Vec<EventCall>),
)
    requires
        call_ensures(Agent::disconnect, (agent, closed, at), r),
    ensures
        final(agent)@.session is None,
        old(agent)@.session is Some ==> final(agent)@.endpoints.len() == 0,
        old(agent)@.session is None ==> final(agent)@ == old(agent)@ && r.0 is Ok && r.1@.len() == 0,
        old(agent)@.session is Some ==> (r.0 is Err <==> closed is Err),
        old(agent)@.session is Some ==> r.1@.len() == old(agent)@.event_handlers.len(),
        forall|i: int|
            0 <= i < r.1@.len() ==> (#[trigger] r.1@[i]).handler == old(agent)@.event_handlers[i]
                && r.1@[i].event == (Event::AgentDisconnected { timestamp: at, error: None }),
        final(agent)@.event_handlers == old(agent)@.event_handlers,
        final(agent)@.auto_connect == old(agent)@.auto_connect,
{
}

/// What an agent does before it creates an endpoint: nothing if it is connected, connect if it does so
/// by itself, and otherwise it cannot.
pub proof fn agent_is_made_ready(agent: &Agent, r: Result<Readiness, AgentError>, list: Vec<EndpointRef>)
    requires
        call_ensures(Agent::ensure_connected, (agent,), r),
        call_ensures(Agent::endpoints, (agent,), list),
    ensures
        agent.session is Some ==> (r matches Ok(x) && x is Ready),
        agent.session is None && agent.auto_connect ==> (r matches Ok(x) && x is Connect),
        agent.session is None && !agent.auto_connect ==> (r matches Err(AgentError::NotConnected)),
        list@.len() == agent.endpoints@.len(),
        forall|i: int|
            0 <= i < list@.len() ==> (#[trigger] list@[i]).id@ == agent.endpoints@[i].id@
                && list@[i].url.deep_view() == agent.endpoints@[i].url.deep_view(),
{
    let views = list@.map_values(|e: EndpointRef| e@);
    assert(views == agent@.endpoints);
    assert(views.len() == list@.len());
    assert forall|i: int| 0 <= i < list@.len() implies (#[trigger] list@[i]).id@
        == agent.endpoints@[i].id@ && list@[i].url.deep_view()
        == agent.endpoints@[i].url.deep_view() by {
        assert(views[i] == agent@.endpoints[i]);
    }
}

/// A forwarder is opened if and only if its upstream stands for a URL and a listener with the same
/// options would be opened, and then with the same tunnel, but for the protocol of the upstream.
pub proof fn forwarder_is_opened_as_a_listener_is(
    agent: &Agent,
    to: &Upstream,
    opts: Vec<EndpointOption>,
    r: Result<(TunnelBuilder, Url), AgentError>,
    url: Result<Url, urls::ParseError>,
    listens: Result<TunnelBuilder, AgentError>,
)
    requires
        call_ensures(Agent::forward_tunnel, (agent, to, opts), r),
        call_ensures(Upstream::to_url, (to,), url),
        call_ensures(Agent::listen_tunnel, (agent, opts), listens),
    ensures
        r is Ok <==> url is Ok && listens is Ok,
        r is Ok ==> {
            let b = r->Ok_0.0@;
            let l = listens->Ok_0@;
            b == TunnelBuilderView { app_protocol: b.app_protocol, ..l }
        },
{
}

/// What is opened for options is what their URL and their values ask for.
pub proof fn tunnel_is_what_the_options_ask_for(
    opts: &EndpointOpts,
    parsed: &Option<Url>,
    r: Result<TunnelBuilder, AgentError>,
)
    requires
        call_ensures(tunnel_of, (opts, parsed), r),
    ensures
        opens(r, opts@, urls::maybe(*parsed)),
{
}

} // verus!
