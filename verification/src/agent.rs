//! Agent builder and agent handle.
use vstd::prelude::*;

use crate::certs;
use crate::diagnose;
use crate::diagnose::{DiagnoseResult, Probe};
use crate::endpoint::{EndpointInfo, EndpointInfoView, EndpointKind};
use crate::error::{DiagnoseError, Error, IoError, IoErrorKind};
use crate::events::HandlerId;
use crate::forwarder::{EndpointForwarder, ForwarderView};
use crate::json;
use crate::json::{Json, Member};
use crate::listener::{EndpointListener, ListenerView};
use crate::options::{EndpointOptions, EndpointOptionsView};
use crate::proto::msg;
use crate::proto::msg::{AuthExtra, AuthExtraView, BindReq, BindReqView, BindResp};
use crate::session::AgentSession;
use crate::text;
use crate::text::{contains_text, join, join_host_port, names_host_and_port, parse_port, same_text, string_from_utf8, text_or_empty};
use crate::time::Span;
use crate::tunnel::raw_session::{ChannelId, RawSession};
use crate::tunnel::reconnecting;
use crate::tunnel::routes::Routes;
use crate::tunnel::reconnecting::{
    DialConfig,
    InnerView,
    LoopAction,
    LoopEvent,
    LoopEventView,
    LoopView,
    Phase,
    ReconnectInner,
    ReconnectingSession,
    TunnelConfig,
    TunnelView,
};
use crate::upstream::{Upstream, UpstreamView};
use crate::urls;
use crate::urls::{ParseError, Url, UrlView};

pub mod agent;
pub mod builder;
pub mod endpoint_options;
pub mod events;
pub mod upstream;

verus! {

/// The members of a bind request's options: one for each thing that was asked for.
pub open spec fn bind_members(opts: EndpointOptionsView) -> Map<Seq<char>, Json> {
    let none = json::no_members();
    let host = match opts.url {
        Some(url) => none.insert("Hostname"@, Json::Text(url)),
        None => none,
    };
    let policy = match opts.traffic_policy {
        Some(policy) => host.insert("TrafficPolicy"@, Json::Text(policy)),
        None => host,
    };
    let pooling = if opts.pooling_enabled {
        policy.insert("PoolingEnabled"@, Json::Bool(true))
    } else {
        policy
    };
    if opts.bindings.len() > 0 {
        pooling.insert(
            "Bindings"@,
            Json::List(opts.bindings.map_values(|s: Seq<char>| Json::Text(s))),
        )
    } else {
        pooling
    }
}

/// Build bind options from `EndpointOptions`.
pub fn build_bind_opts(opts: &EndpointOptions) -> (r: serde_json::Value)
    ensures
        json::is_object(r),
        json::members(r) == bind_members(opts@),
{
    let mut object: serde_json::Value = json::empty_object();
    if let Some(url) = &opts.url {
        json::set_member(&mut object, "Hostname", Member::Text(url.clone()));
    }
    if let Some(policy) = &opts.traffic_policy {
        json::set_member(&mut object, "TrafficPolicy", Member::Text(policy.clone()));
    }
    if opts.pooling_enabled {
        json::set_member(&mut object, "PoolingEnabled", Member::Bool(true));
    }
    if opts.bindings.len() > 0 {
        let bindings: Vec<String> = opts.bindings.clone();
        assert(bindings.deep_view() =~= opts.bindings.deep_view());
        json::set_member(&mut object, "Bindings", Member::Texts(bindings));
    }
    object
}

/// A bind request asks for exactly what the options hold: a member is there if and only if its
/// option was set, with the value that was set.
pub proof fn bind_asks_for_what_was_set(opts: EndpointOptionsView)
    ensures
        ({
            let m = bind_members(opts);
            &&& m.contains_key("Hostname"@) == opts.url is Some
            &&& opts.url matches Some(url) ==> m["Hostname"@] == Json::Text(url)
            &&& m.contains_key("TrafficPolicy"@) == opts.traffic_policy is Some
            &&& opts.traffic_policy matches Some(p) ==> m["TrafficPolicy"@] == Json::Text(p)
            &&& m.contains_key("PoolingEnabled"@) == opts.pooling_enabled
            &&& opts.pooling_enabled ==> m["PoolingEnabled"@] == Json::Bool(true)
            &&& m.contains_key("Bindings"@) == (opts.bindings.len() > 0)
            &&& opts.bindings.len() > 0 ==> m["Bindings"@] == Json::List(
                opts.bindings.map_values(|s: Seq<char>| Json::Text(s)),
            )
            &&& forall|key: Seq<char>|
                m.contains_key(key) ==> key == "Hostname"@ || key == "TrafficPolicy"@ || key
                    == "PoolingEnabled"@ || key == "Bindings"@
        }),
{
    reveal_strlit("Hostname");
    reveal_strlit("TrafficPolicy");
    reveal_strlit("PoolingEnabled");
    reveal_strlit("Bindings");
    assert("Hostname"@[0] == 'H');
    assert("TrafficPolicy"@[0] == 'T');
    assert("PoolingEnabled"@[0] == 'P');
    assert("Bindings"@[0] == 'B');
}

/// What the requested URL, if there is one, parses to.
pub open spec fn requested_url(opts: EndpointOptionsView) -> Option<UrlView> {
    match opts.url {
        Some(url) => urls::url_parse(url).ok(),
        None => None,
    }
}

/// The bind request for the options, of which the requested URL parses as given. Its scheme
/// determines the protocol; without one it is `https`.
pub open spec fn bind_view(opts: EndpointOptionsView, requested: Option<UrlView>) -> BindReqView {
    BindReqView {
        client_id: Seq::empty(),
        proto: match requested {
            Some(url) => url.scheme,
            None => "https"@,
        },
        has_opts: true,
        opts: bind_members(opts),
        forwards: Seq::empty(),
    }
}

/// Parse a URL, if it is one.
fn parse_url(url: &str) -> (r: Option<Url>)
    ensures
        urls::maybe(r) == urls::url_parse(url@).ok(),
{
    match Url::parse(url) {
        Ok(u) => Some(u),
        Err(_) => None,
    }
}

/// The bind request for an endpoint with the given options.
pub fn bind_request(opts: &EndpointOptions) -> (r: BindReq)
    ensures
        r@ == bind_view(opts@, requested_url(opts@)),
{
    let requested: Option<Url> = match &opts.url {
        Some(url) => parse_url(url.as_str()),
        None => None,
    };
    bind_request_at(opts, requested)
}

/// The bind request for an endpoint with the given options, of which the requested URL was parsed.
pub fn bind_request_at(opts: &EndpointOptions, requested: Option<Url>) -> (r: BindReq)
    ensures
        r@ == bind_view(opts@, urls::maybe(requested)),
{
    let proto: String = match requested {
        Some(url) => url.scheme,
        None => "https".to_owned(),
    };
    BindReq { client_id: String::new(), proto, opts: build_bind_opts(opts), forwards: String::new() }
}

/// The `host:port` that an upstream address stands for, given what it parses to as a URL: the host
/// and port of the URL, which default to `localhost` and the port of HTTPS or HTTP; a port on
/// `localhost`; or anything else with a colon, as it is. A name and a port stand for themselves,
/// though they parse as a URL without a host.
pub open spec fn resolved(addr: Seq<char>, url: Option<UrlView>) -> Option<Seq<char>> {
    match url {
        Some(UrlView { host: None, .. }) if text::is_host_and_port(addr) => Some(addr),
        Some(u) => {
            let host = match u.host {
                Some(h) => h,
                None => "localhost"@,
            };
            let port = match u.port {
                Some(p) => p,
                None => if u.scheme == "https"@ {
                    443u16
                } else {
                    80u16
                },
            };
            Some(text::host_and_port(host, port))
        },
        None => match text::port_number(addr) {
            Some(port) => Some(text::host_and_port("localhost"@, port)),
            None => if text::occurs_in(":"@, addr) {
                Some(addr)
            } else {
                None
            },
        },
    }
}

/// Whether `r` is the given address, or the error for the upstream `addr` if there is none.
pub open spec fn resolves_to(
    r: Result<String, Error>,
    addr: Seq<char>,
    to: Option<Seq<char>>,
) -> bool {
    match to {
        Some(a) => r is Ok && r->Ok_0@ == a,
        None => r matches Err(Error::InvalidUpstream(e)) && e@ == addr,
    }
}

/// Resolve an upstream address string to host:port.
///
/// `addr` accepts: `"8080"`, `"host:port"`, `"http://host:port"`, `"https://host:port"`. A
/// `host:port` also parses as a URL, with the host as its scheme, but such a URL names no host.
pub fn resolve_upstream_addr(addr: &str) -> (r: Result<String, Error>)
    ensures
        resolves_to(r, addr@, resolved(addr@, urls::url_parse(addr@).ok())),
{
    resolve_parsed_addr(addr, parse_url(addr))
}

/// Resolve an upstream address string that was tried as a URL.
pub fn resolve_parsed_addr(addr: &str, url: Option<Url>) -> (r: Result<String, Error>)
    ensures
        resolves_to(r, addr@, resolved(addr@, urls::maybe(url))),
{
    if let Some(u) = &url {
        let host: &str = match u.host_str() {
            Some(h) => h,
            None => {
                if names_host_and_port(addr) {
                    return Ok(addr.to_owned());
                }
                "localhost"
            },
        };
        let port: u16 = match u.port() {
            Some(p) => p,
            None => if same_text(u.scheme(), "https") {
                443
            } else {
                80
            },
        };
        return Ok(join_host_port(host, port));
    }
    if let Some(port) = parse_port(addr) {
        return Ok(join_host_port("localhost", port));
    }
    if contains_text(addr, ":") {
        return Ok(addr.to_owned());
    }
    Err(Error::InvalidUpstream(addr.to_owned()))
}

/// The bytes of `buf` before the first zero byte, or all of them if there is none.
pub open spec fn before_zero(buf: Seq<u8>) -> Seq<u8>
    decreases buf.len(),
{
    if buf.len() == 0 || buf[0] == 0 {
        Seq::empty()
    } else {
        seq![buf[0]] + before_zero(buf.skip(1))
    }
}

/// Cutting at the first zero byte: a prefix without one that ends the buffer or is followed by
/// one.
proof fn lemma_before_zero_at(buf: Seq<u8>, n: int)
    requires
        0 <= n <= buf.len(),
        forall|i: int| 0 <= i < n ==> buf[i] != 0,
        n == buf.len() || buf[n] == 0,
    ensures
        before_zero(buf) == buf.take(n),
    decreases buf.len(),
{
    if buf.len() == 0 || buf[0] == 0 {
        assert(buf.take(n) =~= Seq::<u8>::empty());
    } else {
        lemma_before_zero_at(buf.skip(1), n - 1);
        assert(buf.take(n) =~= seq![buf[0]] + buf.skip(1).take(n - 1));
    }
}

/// The hostname of the machine, from the status of the system call and the buffer that it filled:
/// there is none if the call failed or the name is not valid UTF-8.
pub fn gethostname(status: i32, buf: &[u8]) -> (r: Option<String>)
    ensures
        match r {
            Some(name) => status == 0 && vstd::utf8::valid_utf8(before_zero(buf@)) && name@
                == vstd::utf8::decode_utf8(before_zero(buf@)),
            None => status != 0 || !vstd::utf8::valid_utf8(before_zero(buf@)),
        },
{
    if status != 0 {
        return None;
    }
    let mut name: Vec<u8> = Vec::new();
    let mut end: usize = 0;
    while end < buf.len() && buf[end] != 0
        invariant
            0 <= end <= buf@.len(),
            name@ == buf@.take(end as int),
            forall|i: int| 0 <= i < end ==> buf@[i] != 0,
        decreases buf@.len() - end,
    {
        name.push(buf[end]);
        end = end + 1;
        assert(buf@.take(end as int) =~= buf@.take(end - 1).push(buf@[end - 1]));
    }
    proof {
        lemma_before_zero_at(buf@, end as int);
    }
    string_from_utf8(name)
}

/// Builder for an `Agent`.
///
/// Use `Agent::builder()` to create one.
pub struct AgentBuilder {
    /// The authtoken for ngrok cloud authentication.
    pub authtoken: Option<String>,
    /// The connect address (host:port).
    pub connect_url: Option<String>,
    /// A custom TLS client config.
    pub tls_config: Option<rustls::ClientConfig>,
    /// A custom CA certificate (DER or PEM bytes).
    pub connect_ca_cert: Option<Vec<u8>>,
    /// An HTTP/SOCKS proxy URL for outbound connections.
    pub proxy_url: Option<String>,
    /// Whether to connect on build.
    pub auto_connect: bool,
    /// The heartbeat interval.
    pub heartbeat_interval: Span,
    /// The heartbeat tolerance.
    pub heartbeat_tolerance: Span,
    /// The client type reported to ngrok cloud.
    pub client_type: Option<String>,
    /// The client version reported to ngrok cloud.
    pub client_version: Option<String>,
    /// A human-readable description for the agent.
    pub description: Option<String>,
    /// User-defined metadata for the agent.
    pub metadata: Option<String>,
    /// The event handlers, in the order of their registration.
    pub event_handlers: Vec<HandlerId>,
    /// The handler for server-initiated commands.
    pub rpc_handler: Option<HandlerId>,
    /// Whether tracing is enabled.
    pub with_tracing: bool,
}

/// An agent builder, as mathematical values.
pub struct AgentBuilderView {
    /// The authtoken.
    pub authtoken: Option<Seq<char>>,
    /// The connect address (host:port).
    pub connect_url: Option<Seq<char>>,
    /// A custom TLS client config.
    pub tls_config: Option<rustls::ClientConfig>,
    /// A custom CA certificate.
    pub connect_ca_cert: Option<Seq<u8>>,
    /// A proxy URL.
    pub proxy_url: Option<Seq<char>>,
    /// Whether to connect on build.
    pub auto_connect: bool,
    /// The heartbeat interval.
    pub heartbeat_interval: Span,
    /// The heartbeat tolerance.
    pub heartbeat_tolerance: Span,
    /// The client type.
    pub client_type: Option<Seq<char>>,
    /// The client version.
    pub client_version: Option<Seq<char>>,
    /// A human-readable description.
    pub description: Option<Seq<char>>,
    /// User-defined metadata.
    pub metadata: Option<Seq<char>>,
    /// The event handlers.
    pub event_handlers: Seq<HandlerId>,
    /// The handler for server-initiated commands.
    pub rpc_handler: Option<HandlerId>,
    /// Whether tracing is enabled.
    pub with_tracing: bool,
}

impl View for AgentBuilder {
    type V = AgentBuilderView;

    open spec fn view(&self) -> AgentBuilderView {
        AgentBuilderView {
            authtoken: self.authtoken.deep_view(),
            connect_url: self.connect_url.deep_view(),
            tls_config: self.tls_config,
            connect_ca_cert: self.connect_ca_cert.deep_view(),
            proxy_url: self.proxy_url.deep_view(),
            auto_connect: self.auto_connect,
            heartbeat_interval: self.heartbeat_interval,
            heartbeat_tolerance: self.heartbeat_tolerance,
            client_type: self.client_type.deep_view(),
            client_version: self.client_version.deep_view(),
            description: self.description.deep_view(),
            metadata: self.metadata.deep_view(),
            event_handlers: self.event_handlers@,
            rpc_handler: self.rpc_handler,
            with_tracing: self.with_tracing,
        }
    }
}

/// A builder on which nothing was set.
pub open spec fn new_builder() -> AgentBuilderView {
    AgentBuilderView {
        authtoken: None,
        connect_url: None,
        tls_config: None,
        connect_ca_cert: None,
        proxy_url: None,
        auto_connect: true,
        heartbeat_interval: Span { secs: 10, nanos: 0 },
        heartbeat_tolerance: Span { secs: 15, nanos: 0 },
        client_type: None,
        client_version: None,
        description: None,
        metadata: None,
        event_handlers: Seq::empty(),
        rpc_handler: None,
        with_tracing: false,
    }
}

impl AgentBuilder {
    /// Set the authtoken for ngrok cloud authentication.
    pub fn authtoken(self, token: &str) -> (r: Self)
        ensures
            r@ == (AgentBuilderView { authtoken: Some(token@), ..self@ }),
    {
        AgentBuilder { authtoken: Some(token.to_owned()), ..self }
    }

    /// Take the authtoken from the value of the `NGROK_AUTHTOKEN` environment variable. Where the
    /// variable has no value, there is no authtoken.
    pub fn authtoken_from_env(self, value: Option<String>) -> (r: Self)
        ensures
            r@ == (AgentBuilderView { authtoken: value.deep_view(), ..self@ }),
    {
        AgentBuilder { authtoken: value, ..self }
    }

    /// Set the connect URL (host:port) for the ngrok cloud.
    pub fn connect_url(self, addr: &str) -> (r: Self)
        ensures
            r@ == (AgentBuilderView { connect_url: Some(addr@), ..self@ }),
    {
        AgentBuilder { connect_url: Some(addr.to_owned()), ..self }
    }

    /// Set a custom CA certificate for TLS verification (DER or PEM bytes).
    pub fn connect_ca_cert(self, pem: &[u8]) -> (r: Self)
        ensures
            r@ == (AgentBuilderView { connect_ca_cert: Some(pem@), ..self@ }),
    {
        let file: Vec<u8> = vstd::slice::slice_to_vec(pem);
        assert(file.deep_view() =~= pem@);
        AgentBuilder { connect_ca_cert: Some(file), ..self }
    }

    /// Set a custom TLS client config.
    pub fn tls_config(self, cfg: rustls::ClientConfig) -> (r: Self)
        ensures
            r@ == (AgentBuilderView { tls_config: Some(cfg), ..self@ }),
    {
        AgentBuilder { tls_config: Some(cfg), ..self }
    }

    /// Set an HTTP/SOCKS proxy URL for outbound connections.
    pub fn proxy_url(self, url: &str) -> (r: Self)
        ensures
            r@ == (AgentBuilderView { proxy_url: Some(url@), ..self@ }),
    {
        AgentBuilder { proxy_url: Some(url.to_owned()), ..self }
    }

    /// Whether to auto-connect on build. Default: true.
    pub fn auto_connect(self, auto: bool) -> (r: Self)
        ensures
            r@ == (AgentBuilderView { auto_connect: auto, ..self@ }),
    {
        AgentBuilder { auto_connect: auto, ..self }
    }

    /// Set the heartbeat interval.
    pub fn heartbeat_interval(self, d: Span) -> (r: Self)
        ensures
            r@ == (AgentBuilderView { heartbeat_interval: d, ..self@ }),
    {
        AgentBuilder { heartbeat_interval: d, ..self }
    }

    /// Set the heartbeat tolerance.
    pub fn heartbeat_tolerance(self, d: Span) -> (r: Self)
        ensures
            r@ == (AgentBuilderView { heartbeat_tolerance: d, ..self@ }),
    {
        AgentBuilder { heartbeat_tolerance: d, ..self }
    }

    /// Set client info reported to ngrok cloud.
    pub fn client_info(self, client_type: &str, version: &str) -> (r: Self)
        ensures
            r@ == (AgentBuilderView {
                client_type: Some(client_type@),
                client_version: Some(version@),
                ..self@
            }),
    {
        AgentBuilder {
            client_type: Some(client_type.to_owned()),
            client_version: Some(version.to_owned()),
            ..self
        }
    }

    /// Set a human-readable description for this agent.
    pub fn description(self, desc: &str) -> (r: Self)
        ensures
            r@ == (AgentBuilderView { description: Some(desc@), ..self@ }),
    {
        AgentBuilder { description: Some(desc.to_owned()), ..self }
    }

    /// Set user-defined metadata for this agent.
    pub fn metadata(self, meta: &str) -> (r: Self)
        ensures
            r@ == (AgentBuilderView { metadata: Some(meta@), ..self@ }),
    {
        AgentBuilder { metadata: Some(meta.to_owned()), ..self }
    }

    /// Register an event handler.
    pub fn on_event(self, handler: HandlerId) -> (r: Self)
        ensures
            r@ == (AgentBuilderView {
                event_handlers: self@.event_handlers.push(handler),
                ..self@
            }),
    {
        let mut r = self;
        r.event_handlers.push(handler);
        r
    }

    /// Register an RPC handler for server-initiated commands.
    pub fn on_rpc(self, handler: HandlerId) -> (r: Self)
        ensures
            r@ == (AgentBuilderView { rpc_handler: Some(handler), ..self@ }),
    {
        AgentBuilder { rpc_handler: Some(handler), ..self }
    }

    /// Enable tracing integration.
    pub fn with_tracing(self) -> (r: Self)
        ensures
            r@ == (AgentBuilderView { with_tracing: true, ..self@ }),
    {
        AgentBuilder { with_tracing: true, ..self }
    }
}

/// What an agent reports about the machine and the library that it runs on.
#[derive(Debug)]
pub struct HostFacts {
    /// The operating system.
    pub os: String,
    /// The CPU architecture.
    pub arch: String,
    /// The version of the library.
    pub version: String,
    /// The hostname of the machine, if it could be had.
    pub hostname: Option<String>,
}

/// A span of time in milliseconds, as a 64 bit number on the wire.
pub open spec fn wire_millis(d: Span) -> i64 {
    d.millis() as i64
}

/// The name and version by which an agent introduces itself.
pub open spec fn user_agent(client_type: Option<Seq<char>>, version: Seq<char>) -> Seq<char> {
    match client_type {
        Some(t) => t + "/"@ + version,
        None => "ngrok-rust/"@ + version,
    }
}

/// What the agent of a builder sends with each authentication. There is no cookie yet.
pub open spec fn auth_extra_of(
    b: AgentBuilderView,
    authtoken: Seq<char>,
    facts: HostFacts,
) -> AuthExtraView {
    AuthExtraView {
        authtoken,
        os: facts.os@,
        arch: facts.arch@,
        version: match b.client_version {
            Some(v) => v,
            None => facts.version@,
        },
        hostname: text::or_empty(facts.hostname.deep_view()),
        user_agent: user_agent(b.client_type, facts.version@),
        metadata: text::or_empty(b.metadata),
        heartbeat_interval_ms: wire_millis(b.heartbeat_interval),
        heartbeat_tolerance_ms: wire_millis(b.heartbeat_tolerance),
        ..msg::empty_auth_extra()
    }
}

/// An endpoint that is open.
#[derive(Debug)]
struct OpenEndpoint {
    info: EndpointInfo,
    channel: ChannelId,
}

/// An endpoint that is open, as mathematical values.
pub struct OpenView {
    /// The endpoint.
    pub info: EndpointInfoView,
    /// The channel over which it receives its connections.
    pub channel: ChannelId,
}

impl View for OpenEndpoint {
    type V = OpenView;

    closed spec fn view(&self) -> OpenView {
        OpenView { info: self.info@, channel: self.channel }
    }
}

/// Some open endpoints, as mathematical values.
spec fn open_views(endpoints: Seq<OpenEndpoint>) -> Seq<OpenView> {
    endpoints.map_values(|e: OpenEndpoint| e@)
}

/// The root handle for the ngrok agent.
///
/// Manages authentication, the persistent session, and all open endpoints.
pub struct Agent {
    inner: ReconnectInner,
    reconnecting: Option<ReconnectingSession>,
    endpoints: Vec<OpenEndpoint>,
}

/// Where a reconnect loop stands, as mathematical values.
pub struct TaskView {
    /// Where the loop stands.
    pub phase: Phase,
    /// How long the next wait is, in milliseconds.
    pub backoff_ms: u64,
    /// The tunnels that are still to be bound again.
    pub queue: Seq<TunnelView>,
}

/// A reconnect loop that was just started.
pub open spec fn new_task() -> TaskView {
    TaskView {
        phase: Phase::Top,
        backoff_ms: reconnecting::INITIAL_BACKOFF_MS,
        queue: Seq::empty(),
    }
}

/// An agent, as mathematical values.
pub struct AgentView {
    /// The state shared with the reconnect loop.
    pub inner: InnerView,
    /// The reconnect loop, once there is one.
    pub task: Option<TaskView>,
    /// The open endpoints, in the order in which they were opened.
    pub endpoints: Seq<OpenView>,
    /// The handler for server-initiated commands.
    pub rpc_handler: Option<HandlerId>,
    /// How to dial.
    pub dial_config: DialConfig,
}

impl View for Agent {
    type V = AgentView;

    closed spec fn view(&self) -> AgentView {
        AgentView {
            inner: self.inner@,
            task: match self.reconnecting {
                Some(s) => Some(
                    TaskView {
                        phase: s.phase,
                        backoff_ms: s.backoff_ms,
                        queue: reconnecting::tunnel_views(s.queue@),
                    },
                ),
                None => None,
            },
            endpoints: open_views(self.endpoints@),
            rpc_handler: self.inner.rpc_handler,
            dial_config: self.inner.dial_config,
        }
    }
}

/// The state of the reconnect loop of an agent, or that in which it would be started.
pub open spec fn loop_of(v: AgentView) -> LoopView {
    let task = match v.task {
        Some(task) => task,
        None => new_task(),
    };
    LoopView {
        phase: task.phase,
        backoff_ms: task.backoff_ms as nat,
        queue: task.queue,
        inner: v.inner,
    }
}

/// What every agent keeps: its reconnect loop keeps its invariant, whether it was started or not.
pub open spec fn agent_inv(v: AgentView) -> bool {
    reconnecting::loop_inv(loop_of(v))
}

/// Whether `a` is the agent that a builder with an authtoken makes, apart from its TLS
/// configuration: it has no session and no endpoints yet, and its reconnect loop runs if the
/// builder is to connect.
pub open spec fn is_built(
    a: Agent,
    b: AgentBuilderView,
    authtoken: Seq<char>,
    facts: HostFacts,
) -> bool {
    &&& a@.inner == InnerView {
        auth_extra: auth_extra_of(b, authtoken, facts),
        tunnels: Seq::empty(),
        tunnel_senders: Map::empty(),
        event_handlers: b.event_handlers,
        cookie: Seq::empty(),
        session: None,
        raw_session: None,
        closed: false,
        connected: false,
    }
    &&& a@.task == if b.auto_connect {
        Some(new_task())
    } else {
        None
    }
    &&& a@.endpoints.len() == 0
    &&& a@.rpc_handler == b.rpc_handler
    &&& a@.dial_config.connect_url@ == match b.connect_url {
        Some(url) => url,
        None => crate::DEFAULT_CONNECT_URL@,
    }
    &&& a@.dial_config.heartbeat_interval == b.heartbeat_interval
    &&& a@.dial_config.heartbeat_tolerance == b.heartbeat_tolerance
    &&& agent_inv(a@)
}

impl AgentBuilder {
    /// Build the agent.
    ///
    /// The bundled CA certificate is PEM text; the native root certificates are DER bytes.
    pub fn build(self, facts: HostFacts, bundled_ca: &[u8], native_roots: &Vec<Vec<u8>>) -> (r: Result<
        Agent,
        Error,
    >)
        ensures
            match self@.authtoken {
                None => r is Err && r->Err_0 is MissingAuthtoken,
                Some(token) => match self@.tls_config {
                    Some(cfg) => r is Ok && is_built(r->Ok_0, self@, token, facts)
                        && r->Ok_0@.dial_config.tls_config == cfg,
                    None => match certs::trusted_roots(
                        self@.connect_ca_cert,
                        bundled_ca@,
                        native_roots.deep_view(),
                    ) {
                        Ok(roots) => r is Ok && is_built(r->Ok_0, self@, token, facts)
                            && certs::config_roots(r->Ok_0@.dial_config.tls_config) == roots,
                        Err(message) => r matches Err(Error::Io(e)) && e.kind == IoErrorKind::Other
                            && e.message@ == message,
                    },
                },
            },
    {
        let authtoken: String = match self.authtoken {
            Some(token) => token,
            None => return Err(Error::MissingAuthtoken),
        };
        let connect_url: String = match self.connect_url {
            Some(url) => url,
            None => crate::DEFAULT_CONNECT_URL.to_owned(),
        };
        let tls_config: rustls::ClientConfig = match self.tls_config {
            Some(cfg) => cfg,
            None => match certs::agent_config(&self.connect_ca_cert, bundled_ca, native_roots) {
                Ok(cfg) => cfg,
                Err(e) => return Err(Error::Io(IoError { kind: IoErrorKind::Other, message: e })),
            },
        };
        let user_agent: String = match self.client_type {
            Some(t) => {
                let mut r: String = join(t.as_str(), "/");
                r.append(facts.version.as_str());
                r
            },
            None => join("ngrok-rust/", facts.version.as_str()),
        };
        let auth_extra = AuthExtra {
            authtoken,
            os: facts.os,
            arch: facts.arch,
            version: match self.client_version {
                Some(v) => v,
                None => facts.version,
            },
            hostname: text_or_empty(facts.hostname),
            user_agent,
            metadata: text_or_empty(self.metadata),
            heartbeat_interval_ms: self.heartbeat_interval.as_millis() as i64,
            heartbeat_tolerance_ms: self.heartbeat_tolerance.as_millis() as i64,
            ..AuthExtra::default()
        };
        let dial_config = DialConfig {
            connect_url,
            tls_config,
            heartbeat_interval: self.heartbeat_interval,
            heartbeat_tolerance: self.heartbeat_tolerance,
        };
        let inner = ReconnectInner {
            auth_extra,
            tunnels: Vec::new(),
            tunnel_senders: Routes::new(),
            rpc_handler: self.rpc_handler,
            event_handlers: self.event_handlers,
            cookie: String::new(),
            session: None,
            raw_session: None,
            closed: false,
            dial_config,
            connected: false,
        };
        let reconnecting: Option<ReconnectingSession> = if self.auto_connect {
            Some(ReconnectingSession::start())
        } else {
            None
        };
        let agent = Agent { inner, reconnecting, endpoints: Vec::new() };
        assert(agent@.inner.tunnels =~= Seq::<TunnelView>::empty());
        assert(agent.reconnecting is Some ==> reconnecting::tunnel_views(
            agent.reconnecting->0.queue@,
        ) =~= Seq::<TunnelView>::empty());
        Ok(agent)
    }
}

/// What is left to do for an agent that was told to connect.
#[derive(Debug, Clone, Copy, PartialEq, Eq, Structural)]
pub struct Connecting {
    /// Whether the reconnect loop was started just now, so that it must be run.
    pub start: bool,
    /// Whether there is a session; otherwise the agent waits for one.
    pub connected: bool,
}

/// What is left to do for an agent that was told to disconnect.
#[derive(Debug)]
pub struct Disconnecting {
    /// The channels of the endpoints that were closed, which signal completion.
    pub channels: Vec<ChannelId>,
    /// The session that is to be closed, if there is one.
    pub session: Option<RawSession>,
}

/// The agent after the endpoint of a channel was closed: it is not listed, no ID leads to its
/// channel, and its tunnel is not bound again.
pub open spec fn without_endpoint(v: AgentView, channel: ChannelId) -> AgentView {
    AgentView {
        inner: reconnecting::without_tunnel(v.inner, channel),
        endpoints: v.endpoints.filter(|e: OpenView| e.channel != channel),
        ..v
    }
}

/// The agent after it was disconnected: it is closed, and so are all its endpoints.
pub open spec fn disconnected(v: AgentView) -> AgentView {
    AgentView {
        inner: InnerView {
            closed: true,
            tunnels: Seq::empty(),
            tunnel_senders: Map::empty(),
            ..v.inner
        },
        endpoints: Seq::empty(),
        ..v
    }
}

/// The agent with its reconnect loop started, if it was not before.
pub open spec fn started(v: AgentView) -> AgentView {
    AgentView {
        task: match v.task {
            Some(task) => Some(task),
            None => Some(new_task()),
        },
        ..v
    }
}

impl Agent {
    /// Create a new `AgentBuilder`.
    pub fn builder() -> (r: AgentBuilder)
        ensures
            r@ == new_builder(),
    {
        AgentBuilder {
            authtoken: None,
            connect_url: None,
            tls_config: None,
            connect_ca_cert: None,
            proxy_url: None,
            auto_connect: true,
            heartbeat_interval: Span::from_secs(10),
            heartbeat_tolerance: Span::from_secs(15),
            client_type: None,
            client_version: None,
            description: None,
            metadata: None,
            event_handlers: Vec::new(),
            rpc_handler: None,
            with_tracing: false,
        }
    }

    /// Explicitly connect to ngrok cloud: start the reconnect loop if there is none yet, and say
    /// whether there is a session already.
    pub fn connect(&mut self) -> (r: Connecting)
        requires
            agent_inv(old(self)@),
        ensures
            final(self)@ == started(old(self)@),
            agent_inv(final(self)@),
            r.start == old(self)@.task is None,
            r.connected == old(self)@.inner.connected,
    {
        let start: bool = self.reconnecting.is_none();
        if start {
            let task: ReconnectingSession = ReconnectingSession::start();
            assert(reconnecting::tunnel_views(task.queue@) =~= Seq::<TunnelView>::empty());
            self.reconnecting = Some(task);
        }
        Connecting { start, connected: self.inner.connected }
    }

    /// Take an event of the reconnect loop, and say what to do next. `None` means that the event
    /// cannot have happened where the loop stands, or that there is no loop; the agent is then as
    /// it was.
    pub fn reconnect(&mut self, event: LoopEvent) -> (r: Option<LoopAction>)
        requires
            agent_inv(old(self)@),
        ensures
            agent_inv(final(self)@),
            r is Some == (old(self)@.task is Some && reconnecting::expects(
                loop_of(old(self)@),
                event@,
            )),
            r is None ==> *final(self) == *old(self),
            r matches Some(action) ==> {
                let (next, what) = reconnecting::loop_step(loop_of(old(self)@), event@);
                &&& final(self)@.task is Some
                &&& loop_of(final(self)@) == next
                &&& action.is_view(what, old(self)@.inner.event_handlers)
                &&& final(self)@ == AgentView {
                    inner: next.inner,
                    task: final(self)@.task,
                    ..old(self)@
                }
            },
    {
        match self.reconnecting.take() {
            None => None,
            Some(task) => {
                let mut task = task;
                let expected: bool = match (&event, task.phase) {
                    (LoopEvent::Woke, Phase::Top) => true,
                    (LoopEvent::DialFailed, Phase::Dialing) => true,
                    (LoopEvent::Dialed { .. }, Phase::Dialing) => true,
                    (LoopEvent::Rebound(_), Phase::Rebinding) => true,
                    (LoopEvent::RebindFailed, Phase::Rebinding) => true,
                    (LoopEvent::Started { .. }, Phase::Starting) => true,
                    (LoopEvent::Ended { .. }, Phase::Serving) => true,
                    _ => false,
                };
                assert(expected == reconnecting::expects(loop_of(old(self)@), event@));
                if !expected {
                    self.reconnecting = Some(task);
                    return None;
                }
                let action: LoopAction = task.reconnect_loop(&mut self.inner, event);
                self.reconnecting = Some(task);
                Some(action)
            },
        }
    }

    /// Disconnect cleanly: the agent does not dial again. All open endpoints are closed and signal
    /// completion; their channels are returned, and the session that is to be closed. The reconnect
    /// loop forgets the session when it has ended.
    pub fn disconnect(&mut self) -> (r: Disconnecting)
        requires
            agent_inv(old(self)@),
        ensures
            agent_inv(final(self)@),
            final(self)@ == disconnected(old(self)@),
            r.channels@ == old(self)@.endpoints.map_values(|e: OpenView| e.channel),
            r.session == old(self)@.inner.raw_session,
    {
        let mut channels: Vec<ChannelId> = Vec::new();
        let ghost all = self@.endpoints;
        let mut i: usize = 0;
        while i < self.endpoints.len()
            invariant
                0 <= i <= self.endpoints.len(),
                *self == *old(self),
                all == self@.endpoints,
                channels.len() == i,
                forall|j: int| 0 <= j < i ==> #[trigger] channels@[j] == all[j].channel,
            decreases self.endpoints.len() - i,
        {
            channels.push(self.endpoints[i].channel);
            i = i + 1;
        }
        assert(channels@ =~= all.map_values(|e: OpenView| e.channel));
        self.inner.closed = true;
        self.inner.tunnels = Vec::new();
        self.inner.tunnel_senders = Routes::new();
        self.endpoints = Vec::new();
        assert(self@.inner.tunnels =~= Seq::<TunnelView>::empty());
        assert(self@.endpoints =~= Seq::<OpenView>::empty());
        Disconnecting { channels, session: self.inner.raw_session }
    }

    /// The state shared with the reconnect loop.
    pub fn inner(&self) -> (r: &ReconnectInner)
        ensures
            r@ == self@.inner,
            r.rpc_handler == self@.rpc_handler,
            r.dial_config == self@.dial_config,
    {
        &self.inner
    }

    /// Whether there is a reconnect loop to be run.
    pub fn is_connecting(&self) -> (r: bool)
        ensures
            r == self@.task is Some,
    {
        self.reconnecting.is_some()
    }

    /// Return the active session, if any.
    pub fn session(&self) -> (r: Option<AgentSession>)
        ensures
            match r {
                Some(s) => self@.inner.session == Some(s@),
                None => self@.inner.session is None,
            },
    {
        match &self.inner.session {
            Some(s) => Some(s.clone()),
            None => None,
        }
    }

    /// Snapshot of all currently open endpoints.
    pub fn endpoints(&self) -> (r: Vec<EndpointInfo>)
        ensures
            r@.map_values(|e: EndpointInfo| e@) == self@.endpoints.map_values(|e: OpenView| e.info),
    {
        let mut r: Vec<EndpointInfo> = Vec::new();
        let mut i: usize = 0;
        while i < self.endpoints.len()
            invariant
                0 <= i <= self.endpoints.len(),
                r.len() == i,
                forall|j: int| 0 <= j < i ==> (#[trigger] r@[j])@ == self.endpoints@[j].info@,
            decreases self.endpoints.len() - i,
        {
            r.push(self.endpoints[i].info.clone());
            i = i + 1;
        }
        assert(r@.map_values(|e: EndpointInfo| e@) =~= self@.endpoints.map_values(
            |e: OpenView| e.info,
        ));
        r
    }

    /// Close the endpoint of a channel: it is not listed any more, is given no connection, and is
    /// not bound again.
    pub fn endpoint_closed(&mut self, channel: ChannelId)
        requires
            agent_inv(old(self)@),
        ensures
            agent_inv(final(self)@),
            final(self)@ == without_endpoint(old(self)@, channel),
    {
        let ghost keep = |e: OpenView| e.channel != channel;
        let ghost all = self@.endpoints;
        let mut open: Vec<OpenEndpoint> = Vec::new();
        let mut i: usize = 0;
        assert(all.take(0).filter(keep) =~= Seq::<OpenView>::empty()) by {
            reveal(Seq::filter);
        }
        assert(open_views(open@) =~= Seq::<OpenView>::empty());
        while i < self.endpoints.len()
            invariant
                0 <= i <= self.endpoints.len(),
                *self == *old(self),
                all == self@.endpoints,
                keep == (|e: OpenView| e.channel != channel),
                open_views(open@) == all.take(i as int).filter(keep),
            decreases self.endpoints.len() - i,
        {
            let ghost before = open_views(open@);
            proof {
                reveal(Seq::filter);
                assert(all.take(i + 1).drop_last() =~= all.take(i as int));
                assert(all.take(i + 1).last() == self.endpoints@[i as int]@);
            }
            if self.endpoints[i].channel != channel {
                let kept = OpenEndpoint {
                    info: self.endpoints[i].info.clone(),
                    channel: self.endpoints[i].channel,
                };
                open.push(kept);
                assert(open_views(open@) =~= before.push(kept@));
            }
            i = i + 1;
        }
        assert(all.take(all.len() as int) =~= all);
        self.endpoints = open;
        self.inner.close(channel);
    }

    /// What to send to open an endpoint, and over which session: an agent without a session cannot
    /// open one, nor can one that was disconnected.
    pub fn listen_request(&self, opts: &EndpointOptions) -> (r: Result<(RawSession, BindReq), Error>)
        ensures
            match self@.inner.raw_session {
                Some(raw) if !self@.inner.closed => r matches Ok((over, req)) && over == raw && req@
                    == bind_view(opts@, requested_url(opts@)),
                _ => r is Err && r->Err_0 is NotConnected,
            },
    {
        match self.inner.raw_session {
            Some(raw) if !self.inner.closed => Ok((raw, bind_request(opts))),
            _ => Err(Error::NotConnected),
        }
    }

    /// The address of a connectivity probe: the given one, or that of ngrok cloud.
    pub fn probe_addr<'a>(addr: Option<&'a str>) -> (r: &'a str)
        ensures
            r@ == match addr {
                Some(a) => a@,
                None => crate::DEFAULT_CONNECT_URL@,
            },
    {
        match addr {
            Some(a) => a,
            None => crate::DEFAULT_CONNECT_URL,
        }
    }

    /// What a connectivity probe without authenticating came to.
    pub fn diagnose(addr: Option<&str>, probe: Probe) -> (r: Result<DiagnoseResult, DiagnoseError>)
        ensures
            diagnose::diagnosed(
                r,
                match addr {
                    Some(a) => a@,
                    None => crate::DEFAULT_CONNECT_URL@,
                },
                probe,
            ),
    {
        diagnose::diagnose(Agent::probe_addr(addr), probe)
    }
}

/// The answer to a bind request that was not refused.
pub struct Assigned {
    /// The endpoint ID.
    pub id: Seq<char>,
    /// The protocol.
    pub proto: Seq<char>,
    /// What the public URL parses to, or the message of the error.
    pub url: Result<UrlView, Seq<char>>,
}

/// The tunnel that is registered for an endpoint.
pub open spec fn tunnel_of(
    opts: EndpointOptionsView,
    requested: Option<UrlView>,
    channel: ChannelId,
) -> TunnelView {
    TunnelView { bind_req: bind_view(opts, requested), accept_tx: channel }
}

/// The listener of an endpoint at a URL.
pub open spec fn listener_of(opts: EndpointOptionsView, to: Assigned, url: UrlView) -> ListenerView {
    ListenerView {
        url,
        id: to.id,
        name: text::or_empty(opts.name),
        metadata: text::or_empty(opts.metadata),
        protocol: to.proto,
    }
}

/// The agent after an endpoint was bound: its tunnel is registered and, if its URL can be parsed,
/// it is among the open endpoints.
pub open spec fn listening(
    v: AgentView,
    opts: EndpointOptionsView,
    requested: Option<UrlView>,
    channel: ChannelId,
    to: Assigned,
) -> AgentView {
    AgentView {
        inner: reconnecting::with_tunnel(
            v.inner,
            tunnel_of(opts, requested, channel),
            to.id,
            to.url.ok(),
        ),
        endpoints: match to.url {
            Ok(url) => v.endpoints.push(
                OpenView {
                    info: EndpointInfoView {
                        id: to.id,
                        name: text::or_empty(opts.name),
                        url,
                        protocol: to.proto,
                        upstream_url: None,
                    },
                    channel,
                },
            ),
            Err(_) => v.endpoints,
        },
        ..v
    }
}

/// Whether `r` is the refusal of a bind request with this message.
pub open spec fn is_refused<T>(r: Result<T, Error>, message: Seq<char>) -> bool {
    r matches Err(Error::Cloud { code, message: m }) && code@ == Seq::<char>::empty() && m@
        == message
}

/// What an accepted answer assigns, with its URL parsed as given.
pub open spec fn assigned_by(reply: BindResp, url: Result<UrlView, Seq<char>>) -> Assigned {
    Assigned { id: reply.client_id@, proto: reply.proto@, url }
}

/// The endpoints after the newest one was made a forwarder to the given URL.
pub open spec fn newest_forwards(
    endpoints: Seq<OpenView>,
    upstream_url: UrlView,
) -> Seq<OpenView> {
    if endpoints.len() == 0 {
        endpoints
    } else {
        let newest = endpoints.last();
        endpoints.drop_last().push(
            OpenView {
                info: EndpointInfoView { upstream_url: Some(upstream_url), ..newest.info },
                ..newest
            },
        )
    }
}

/// The URL of an upstream at `host:port`: that of TCP or, if it cannot be parsed, a place holder.
pub open spec fn upstream_url_at(addr: Seq<char>) -> Result<UrlView, Seq<char>> {
    match urls::url_parse("tcp://"@ + addr) {
        Ok(url) => Ok(url),
        Err(_) => urls::url_parse("tcp://localhost:0"@),
    }
}

/// The forwarder for an upstream, on the endpoint of a listener.
pub open spec fn forwarder_of(
    upstream: UpstreamView,
    listener: ListenerView,
    upstream_url: UrlView,
) -> ForwarderView {
    ForwarderView {
        url: listener.url,
        id: listener.id,
        upstream_url,
        upstream_protocol: upstream.protocol,
        proxy_proto: upstream.proxy_proto,
    }
}

impl Agent {
    /// Open a new listener endpoint, by the answer to its bind request. Its connections come over
    /// the given channel. An agent that was disconnected meanwhile opens nothing, and an endpoint
    /// whose URL cannot be parsed is closed again.
    pub fn listen(&mut self, opts: EndpointOptions, reply: BindResp, channel: ChannelId) -> (r: Result<
        EndpointListener,
        Error,
    >)
        requires
            agent_inv(old(self)@),
        ensures
            agent_inv(final(self)@),
            if old(self)@.inner.closed {
                *final(self) == *old(self) && r is Err && r->Err_0 is NotConnected
            } else if reply.error@.len() > 0 {
                *final(self) == *old(self) && is_refused(r, reply.error@)
            } else {
                let to = assigned_by(reply, urls::url_parse(reply.url@));
                let opened = listening(old(self)@, opts@, requested_url(opts@), channel, to);
                match to.url {
                    Ok(url) => r is Ok && r->Ok_0@ == listener_of(opts@, to, url) && final(self)@
                        == opened,
                    Err(message) => r matches Err(Error::Url(e)) && e@ == message && final(self)@
                        == without_endpoint(opened, channel),
                }
            },
    {
        let requested: Option<Url> = match &opts.url {
            Some(url) => parse_url(url.as_str()),
            None => None,
        };
        let assigned: Result<Url, ParseError> = Url::parse(reply.url.as_str());
        self.listen_at(opts, requested, reply, assigned, channel)
    }

    /// Open a new listener endpoint, where the requested and the assigned URL were parsed.
    pub fn listen_at(
        &mut self,
        opts: EndpointOptions,
        requested: Option<Url>,
        reply: BindResp,
        assigned: Result<Url, ParseError>,
        channel: ChannelId,
    ) -> (r: Result<EndpointListener, Error>)
        requires
            agent_inv(old(self)@),
        ensures
            agent_inv(final(self)@),
            if old(self)@.inner.closed {
                *final(self) == *old(self) && r is Err && r->Err_0 is NotConnected
            } else if reply.error@.len() > 0 {
                *final(self) == *old(self) && is_refused(r, reply.error@)
            } else {
                let to = assigned_by(reply, urls::outcome(assigned));
                let opened = listening(old(self)@, opts@, urls::maybe(requested), channel, to);
                match to.url {
                    Ok(url) => r is Ok && r->Ok_0@ == listener_of(opts@, to, url) && final(self)@
                        == opened,
                    Err(message) => r matches Err(Error::Url(e)) && e@ == message && final(self)@
                        == without_endpoint(opened, channel),
                }
            },
    {
        if self.inner.closed {
            return Err(Error::NotConnected);
        }
        let reply: BindResp = match RawSession::bind(reply) {
            Ok(reply) => reply,
            Err(e) => return Err(e),
        };
        let config = TunnelConfig {
            bind_req: bind_request_at(&opts, requested),
            accept_tx: channel,
        };
        match assigned {
            Err(e) => {
                self.inner.bind_at(config, &reply, None);
                self.endpoint_closed(channel);
                Err(Error::Url(e))
            },
            Ok(url) => {
                self.inner.bind_at(config, &reply, Some(url.clone()));
                let listener = EndpointListener {
                    url: url.clone(),
                    id: reply.client_id.clone(),
                    name: text_or_empty(opts.name),
                    metadata: text_or_empty(opts.metadata),
                    protocol: reply.proto.clone(),
                };
                let info = EndpointInfo {
                    id: reply.client_id,
                    name: listener.name.clone(),
                    url,
                    protocol: reply.proto,
                    kind: EndpointKind::Listener,
                };
                let open = OpenEndpoint { info, channel };
                let ghost before = self@.endpoints;
                self.endpoints.push(open);
                assert(self@.endpoints =~= before.push(open@));
                Ok(listener)
            },
        }
    }

    /// Open a new forwarder endpoint that auto-proxies to an upstream, by the answer to its bind
    /// request. Returns the forwarder and the `host:port` to which its connections go. If it fails,
    /// the endpoint is closed again.
    pub fn forward(
        &mut self,
        upstream: Upstream,
        opts: EndpointOptions,
        reply: BindResp,
        channel: ChannelId,
    ) -> (r: Result<(EndpointForwarder, String), Error>)
        requires
            agent_inv(old(self)@),
        ensures
            agent_inv(final(self)@),
            if old(self)@.inner.closed {
                *final(self) == *old(self) && r is Err && r->Err_0 is NotConnected
            } else if reply.error@.len() > 0 {
                *final(self) == *old(self) && is_refused(r, reply.error@)
            } else {
                let to = assigned_by(reply, urls::url_parse(reply.url@));
                let opened = listening(old(self)@, opts@, requested_url(opts@), channel, to);
                let closed = without_endpoint(opened, channel);
                let addr = resolved(upstream@.addr, urls::url_parse(upstream@.addr).ok());
                match (to.url, addr) {
                    (Err(message), _) => r matches Err(Error::Url(e)) && e@ == message && final(self)@ == closed,
                    (Ok(_), None) => r matches Err(Error::InvalidUpstream(a)) && a@
                        == upstream@.addr && final(self)@ == closed,
                    (Ok(url), Some(addr)) => match upstream_url_at(addr) {
                        Err(message) => r matches Err(Error::Url(e)) && e@ == message && final(self)@ == closed,
                        Ok(target) => r matches Ok((f, a)) && a@ == addr && f@ == forwarder_of(
                            upstream@,
                            listener_of(opts@, to, url),
                            target,
                        ) && final(self)@ == (AgentView {
                            endpoints: newest_forwards(opened.endpoints, target),
                            ..opened
                        }),
                    },
                }
            },
    {
        let listener: EndpointListener = match self.listen(opts, reply, channel) {
            Ok(listener) => listener,
            Err(e) => return Err(e),
        };
        let addr: String = match resolve_upstream_addr(upstream.addr()) {
            Ok(addr) => addr,
            Err(e) => {
                self.endpoint_closed(channel);
                return Err(e);
            },
        };
        let target: Url = match Url::parse(join("tcp://", addr.as_str()).as_str()) {
            Ok(url) => url,
            Err(_) => match Url::parse("tcp://localhost:0") {
                Ok(url) => url,
                Err(e) => {
                    self.endpoint_closed(channel);
                    return Err(Error::Url(e));
                },
            },
        };
        Ok((self.forward_at(upstream, listener, target), addr))
    }

    /// Make the endpoint that was opened last a forwarder to an upstream at the given URL.
    pub fn forward_at(&mut self, upstream: Upstream, listener: EndpointListener, target: Url) -> (r:
        EndpointForwarder)
        requires
            agent_inv(old(self)@),
        ensures
            agent_inv(final(self)@),
            final(self)@ == (AgentView {
                endpoints: newest_forwards(old(self)@.endpoints, target@),
                ..old(self)@
            }),
            r@ == forwarder_of(upstream@, listener@, target@),
    {
        let ghost before = self@.endpoints;
        match self.endpoints.pop() {
            Some(open) => {
                let info = EndpointInfo {
                    kind: EndpointKind::Forwarder { upstream_url: target.clone() },
                    ..open.info
                };
                self.endpoints.push(OpenEndpoint { info, channel: open.channel });
                assert(self@.endpoints =~= newest_forwards(before, target@));
            },
            None => {
                assert(self@.endpoints =~= before);
            },
        }
        EndpointForwarder {
            url: listener.url,
            id: listener.id,
            upstream_url: target,
            upstream_protocol: upstream.protocol,
            proxy_proto: upstream.proxy_proto,
        }
    }
}

/// Opening an endpoint over a channel of its own, under an ID that leads nowhere yet, lists it
/// behind the others; closing it undoes all of that. Closing it also undoes an opening that failed
/// because the assigned URL cannot be parsed.
pub proof fn closing_undoes_opening(
    v: AgentView,
    opts: EndpointOptionsView,
    requested: Option<UrlView>,
    channel: ChannelId,
    to: Assigned,
)
    requires
        !v.inner.tunnel_senders.contains_key(to.id),
        reconnecting::is_closed(v.inner, channel),
        forall|i: int| 0 <= i < v.endpoints.len() ==> (#[trigger] v.endpoints[i]).channel
            != channel,
    ensures
        ({
            let opened = listening(v, opts, requested, channel, to);
            &&& to.url is Ok ==> opened.endpoints.drop_last() == v.endpoints
            &&& to.url is Ok ==> opened.endpoints.last().info.id == to.id
            &&& to.url is Ok ==> opened.endpoints.last().channel == channel
            &&& without_endpoint(opened, channel) == v
        }),
{
    let opened = listening(v, opts, requested, channel, to);
    let after = without_endpoint(opened, channel);
    if to.url is Ok {
        assert(opened.endpoints.drop_last() =~= v.endpoints);
        lemma_filter_last_out(v.endpoints, opened.endpoints.last(), channel);
        assert(opened.endpoints =~= v.endpoints.push(opened.endpoints.last()));
    } else {
        let info = EndpointInfoView {
            id: to.id,
            name: Seq::empty(),
            url: arbitrary(),
            protocol: to.proto,
            upstream_url: None,
        };
        lemma_filter_last_out(v.endpoints, OpenView { info, channel }, channel);
    }
    reconnecting::closing_undoes_binding(
        v.inner,
        tunnel_of(opts, requested, channel),
        to.id,
        to.url.ok(),
    );
    assert(after.inner == v.inner);
}

/// Filtering out the channel of the last endpoint, which no other has.
proof fn lemma_filter_last_out(endpoints: Seq<OpenView>, last: OpenView, channel: ChannelId)
    requires
        last.channel == channel,
        forall|i: int| 0 <= i < endpoints.len() ==> (#[trigger] endpoints[i]).channel != channel,
    ensures
        endpoints.filter(|e: OpenView| e.channel != channel) == endpoints,
        endpoints.push(last).filter(|e: OpenView| e.channel != channel) == endpoints,
    decreases endpoints.len(),
{
    reveal(Seq::filter);
    assert(endpoints.push(last).drop_last() =~= endpoints);
    if endpoints.len() > 0 {
        let front = endpoints.drop_last();
        assert forall|i: int| 0 <= i < front.len() implies (#[trigger] front[i]).channel
            != channel by {
            assert(front[i] == endpoints[i]);
        }
        lemma_filter_last_out(front, last, channel);
        assert(endpoints.last() == endpoints[endpoints.len() - 1]);
        assert(front.push(endpoints.last()) =~= endpoints);
    } else {
        assert(endpoints =~= Seq::<OpenView>::empty());
    }
}

/// An endpoint that is open is listed after others were closed, and a closed one is not.
pub proof fn endpoints_are_those_not_closed(v: AgentView, channel: ChannelId, e: OpenView)
    ensures
        without_endpoint(v, channel).endpoints.contains(e) == (v.endpoints.contains(e) && e.channel
            != channel),
{
    let keep = |e: OpenView| e.channel != channel;
    let kept = v.endpoints.filter(keep);
    if kept.contains(e) {
        v.endpoints.lemma_filter_contains_rev(keep, e);
        let i = choose|i: int| 0 <= i < kept.len() && kept[i] == e;
        v.endpoints.lemma_filter_pred(keep, i);
    }
    if v.endpoints.contains(e) && e.channel != channel {
        let i = choose|i: int| 0 <= i < v.endpoints.len() && v.endpoints[i] == e;
        v.endpoints.lemma_filter_contains(keep, i);
    }
}

/// A closed endpoint is given no connection and is not bound again: right after it is closed and
/// after everything that can happen in the reconnect loop from then on, no ID leads to its
/// channel, and what is bound again is the tunnel of another endpoint.
pub proof fn closed_endpoint_gets_no_connection(v: AgentView, channel: ChannelId, events: Seq<LoopEventView>)
    ensures
        ({
            let after = loop_after(loop_of(without_endpoint(v, channel)), events);
            &&& reconnecting::is_closed(after.inner, channel)
            &&& forall|e: LoopEventView| #[trigger]
                reconnecting::expects(after, e) && reconnecting::loop_step(after, e).1 is Rebind
                    ==> reconnecting::loop_step(after, e).0.queue[0].accept_tx != channel
        }),
    decreases events.len(),
{
    let start = loop_of(without_endpoint(v, channel));
    let other = TunnelView {
        accept_tx: ChannelId { slot: if channel.slot == 0 { 1 } else { 0 } },
        bind_req: arbitrary(),
    };
    if events.len() == 0 {
        reconnecting::closed_tunnel_stays_closed(
            loop_of(v),
            LoopEventView::Woke,
            channel,
            other,
            Seq::empty(),
            None,
        );
    } else {
        closed_endpoint_gets_no_connection(v, channel, events.drop_last());
        let before = loop_after(start, events.drop_last());
        reconnecting::closed_tunnel_stays_closed(
            before,
            events.last(),
            channel,
            other,
            Seq::empty(),
            None,
        );
    }
    let after = loop_after(start, events);
    assert forall|e: LoopEventView| #[trigger]
        reconnecting::expects(after, e) && reconnecting::loop_step(after, e).1 is Rebind
        implies reconnecting::loop_step(after, e).0.queue[0].accept_tx != channel by {
        reconnecting::closed_tunnel_stays_closed(after, e, channel, other, Seq::empty(), None);
    }
}

/// The state of a reconnect loop after some events. Those that cannot happen where it stands
/// change nothing.
pub open spec fn loop_after(v: LoopView, events: Seq<LoopEventView>) -> LoopView
    decreases events.len(),
{
    if events.len() == 0 {
        v
    } else {
        let before = loop_after(v, events.drop_last());
        if reconnecting::expects(before, events.last()) {
            reconnecting::loop_step(before, events.last()).0
        } else {
            before
        }
    }
}

/// An endpoint's connections reach its listener: the channel that was given when the endpoint was
/// opened is the one to which a proxied connection with its ID goes.
pub proof fn opened_endpoint_gets_its_connections(
    v: AgentView,
    opts: EndpointOptionsView,
    requested: Option<UrlView>,
    channel: ChannelId,
    to: Assigned,
)
    ensures
        ({
            let senders = listening(v, opts, requested, channel, to).inner.tunnel_senders;
            senders.contains_key(to.id) && senders[to.id] == channel
        }),
{
}

/// An endpoint keeps its URL over a reconnect: whenever its tunnel is bound again, the request asks
/// for the host that was assigned, and for everything else as it did at first.
pub proof fn opened_endpoint_keeps_its_host(
    v: AgentView,
    opts: EndpointOptionsView,
    requested: Option<UrlView>,
    channel: ChannelId,
    to: Assigned,
)
    requires
        to.url is Ok,
        to.url->Ok_0.host is Some,
    ensures
        ({
            let after = listening(v, opts, requested, channel, to);
            let first = bind_view(opts, requested);
            let again = after.inner.tunnels.last().bind_req;
            &&& after.inner.tunnels.len() == v.inner.tunnels.len() + 1
            &&& again == BindReqView {
                opts: first.opts.insert("Hostname"@, Json::Text(to.url->Ok_0.host->0)),
                ..first
            }
        }),
{
}

/// Connecting a second time starts nothing new.
pub proof fn connecting_twice_is_connecting_once(v: AgentView)
    ensures
        started(started(v)) == started(v),
        loop_of(started(v)) == loop_of(v),
{
}

/// A port number that is no URL stands for that port on `localhost`.
pub proof fn port_alone_is_on_localhost(port: u16)
    ensures
        resolved(text::decimal(port as nat), None) == Some(
            text::host_and_port("localhost"@, port),
        ),
{
    text::port_number_reads_back(port);
}

/// A `host:port` stands for itself, whether it parses as a URL without a host or not at all.
pub proof fn host_and_port_stand_for_themselves(host: Seq<char>, port: u16, url: Option<UrlView>)
    requires
        text::is_host_name(host),
        url matches Some(u) ==> u.host is None,
    ensures
        resolved(text::host_and_port(host, port), url) == Some(text::host_and_port(host, port)),
{
    reveal_strlit(":");
    let addr = text::host_and_port(host, port);
    let i = host.len() as int;
    text::host_and_port_reads_back(host, port);
    assert(addr[i] == ':');
    assert(addr.subrange(i, i + 1) =~= ":"@);
    assert(text::occurs_at(":"@, addr, i));
    assert(addr[0] == host[0] && text::is_host_char(host[0]));
    assert(!text::is_digit(text::without_plus(addr)[i]));
}

/// A URL without a host stands for the default port on `localhost`.
pub proof fn hostless_url_is_on_localhost(addr: Seq<char>, u: UrlView)
    requires
        u.host is None,
        u.port is None,
        u.scheme != "https"@,
        !text::is_host_and_port(addr),
    ensures
        resolved(addr, Some(u)) == Some(text::host_and_port("localhost"@, 80)),
{
}

/// Closing an agent is final: whatever happens in its reconnect loop afterwards, it stays closed
/// and does not dial.
pub proof fn disconnected_agent_never_dials(v: AgentView, e: LoopEventView)
    requires
        v.inner.closed,
        reconnecting::expects(loop_of(v), e),
    ensures
        reconnecting::loop_step(loop_of(v), e).0.inner.closed,
        !(reconnecting::loop_step(loop_of(v), e).1 is Dial),
{
    reconnecting::closed_agent_never_dials(loop_of(v), e);
}

/// Every span that fits is sent as its number of milliseconds.
pub proof fn heartbeats_are_sent_in_milliseconds(d: Span)
    requires
        d.millis() <= i64::MAX,
    ensures
        wire_millis(d) == d.millis(),
{
}

/// A URL that names a host stands for that host. The port is the one that the URL names, whatever
/// its scheme; where it names none it is 443 for `https`, and 80 for any other scheme.
pub proof fn upstream_url_keeps_its_host_and_port(
    addr: Seq<char>,
    u: UrlView,
    host: Seq<char>,
    r: Result<String, Error>,
)
    requires
        u.host == Some(host),
        resolves_to(r, addr, resolved(addr, Some(u))),
    ensures
        r is Ok,
        u.port matches Some(p) ==> r->Ok_0@ == host + seq![':'] + text::decimal(p as nat),
        u.port is None && u.scheme == "https"@ ==> r->Ok_0@ == host + seq![':'] + text::decimal(443),
        u.port is None && u.scheme != "https"@ ==> r->Ok_0@ == host + seq![':'] + text::decimal(80),
{
    text::host_and_port_are_joined_by_a_colon(host, 443);
    text::host_and_port_are_joined_by_a_colon(host, 80);
    if let Some(p) = u.port {
        text::host_and_port_are_joined_by_a_colon(host, p);
    }
}

/// A URL that names no host stands for `localhost`, at the port that it names or the one of its
/// scheme, unless the address is the name of a host and a port, which stand for themselves.
pub proof fn upstream_url_without_a_host(addr: Seq<char>, u: UrlView, r: Result<String, Error>)
    requires
        u.host is None,
        resolves_to(r, addr, resolved(addr, Some(u))),
    ensures
        r is Ok,
        text::is_host_and_port(addr) ==> r->Ok_0@ == addr,
        !text::is_host_and_port(addr) ==> {
            &&& u.port matches Some(p) ==> r->Ok_0@ == "localhost"@ + seq![':'] + text::decimal(
                p as nat,
            )
            &&& u.port is None && u.scheme == "https"@ ==> r->Ok_0@ == "localhost"@ + seq![':']
                + text::decimal(443)
            &&& u.port is None && u.scheme != "https"@ ==> r->Ok_0@ == "localhost"@ + seq![':']
                + text::decimal(80)
        },
{
    text::host_and_port_are_joined_by_a_colon("localhost"@, 443);
    text::host_and_port_are_joined_by_a_colon("localhost"@, 80);
    if let Some(p) = u.port {
        text::host_and_port_are_joined_by_a_colon("localhost"@, p);
    }
}

/// An address that is no URL stands for a port of `localhost` if it is a port number, and for itself
/// if it holds a colon. Any other is refused, and the error names it.
pub proof fn upstream_address_that_is_no_url(addr: Seq<char>, r: Result<String, Error>)
    requires
        resolves_to(r, addr, resolved(addr, None)),
    ensures
        text::port_number(addr) matches Some(p) ==> (r matches Ok(a) && a@ == "localhost"@ + seq![':']
            + text::decimal(p as nat)),
        text::port_number(addr) is None && addr.contains(':') ==> (r matches Ok(a) && a@ == addr),
        text::port_number(addr) is None && !addr.contains(':') ==> (r matches Err(
            Error::InvalidUpstream(a),
        ) && a@ == addr),
{
    reveal_strlit(":");
    if let Some(p) = text::port_number(addr) {
        text::host_and_port_are_joined_by_a_colon("localhost"@, p);
    }
    if addr.contains(':') {
        let i = choose|i: int| 0 <= i < addr.len() && addr[i] == ':';
        assert(addr.subrange(i, i + 1) =~= ":"@);
        assert(text::occurs_at(":"@, addr, i));
    }
    if text::occurs_in(":"@, addr) {
        let i = choose|i: int| text::occurs_at(":"@, addr, i);
        assert(addr.subrange(i, i + 1)[0] == ':');
        assert(addr[i] == ':');
    }
}

/// A bind request asks for the protocol that the scheme of the endpoint's URL names, and for `https`
/// where there is no URL or it cannot be parsed. It names no client and no forwarding address.
pub proof fn bind_request_names_the_protocol(opts: EndpointOptions, r: BindReq)
    requires
        r@ == bind_view(opts@, requested_url(opts@)),
    ensures
        match opts.url {
            Some(url) => match urls::url_parse(url@) {
                Ok(u) => r.proto@ == u.scheme,
                Err(_) => r.proto@ == "https"@,
            },
            None => r.proto@ == "https"@,
        },
        r.client_id@.len() == 0,
        r.forwards@.len() == 0,
        json::is_object(r.opts),
        json::members(r.opts) == bind_members(opts@),
{
}

/// The options that a bind request is made from are those that were set, one by one.
pub proof fn bind_options_are_those_set(opts: EndpointOptions)
    ensures
        ({
            let m = bind_members(opts@);
            &&& opts.url matches Some(url) ==> m.contains_key("Hostname"@) && m["Hostname"@]
                == Json::Text(url@)
            &&& opts.traffic_policy matches Some(p) ==> m.contains_key("TrafficPolicy"@)
                && m["TrafficPolicy"@] == Json::Text(p@)
            &&& opts.url is None ==> !m.contains_key("Hostname"@)
            &&& opts.traffic_policy is None ==> !m.contains_key("TrafficPolicy"@)
            &&& m.contains_key("PoolingEnabled"@) == opts.pooling_enabled
            &&& m.contains_key("Bindings"@) == (opts.bindings@.len() > 0)
            &&& opts.bindings@.len() > 0 ==> (m["Bindings"@] matches Json::List(list) && list.len()
                == opts.bindings@.len() && forall|i: int|
                0 <= i < list.len() ==> #[trigger] list[i] == Json::Text(opts.bindings@[i]@))
        }),
{
    bind_asks_for_what_was_set(opts@);
}

/// A listener has the ID, the protocol and the URL that its endpoint was assigned, and the name and
/// the metadata that were asked for.
pub proof fn listener_is_what_was_assigned(
    l: EndpointListener,
    opts: EndpointOptions,
    reply: BindResp,
    url: UrlView,
)
    requires
        l@ == listener_of(opts@, assigned_by(reply, Ok(url)), url),
    ensures
        l.url@ == url,
        l.id@ == reply.client_id@,
        l.protocol@ == reply.proto@,
        match opts.name {
            Some(name) => l.name@ == name@,
            None => l.name@.len() == 0,
        },
        match opts.metadata {
            Some(metadata) => l.metadata@ == metadata@,
            None => l.metadata@.len() == 0,
        },
{
}

/// Opening an endpoint lists it behind the others, as a listener under what it was assigned, and
/// registers one tunnel over its channel with the request that was sent. Nothing else changes.
pub proof fn opened_endpoint_is_listed(
    v: AgentView,
    opts: EndpointOptions,
    requested: Option<UrlView>,
    channel: ChannelId,
    reply: BindResp,
    url: Result<UrlView, Seq<char>>,
)
    ensures
        ({
            let after = listening(v, opts@, requested, channel, assigned_by(reply, url));
            let tunnel = after.inner.tunnels.last();
            &&& url is Err ==> after.endpoints == v.endpoints
            &&& url matches Ok(u) ==> {
                let e = after.endpoints.last();
                &&& after.endpoints == v.endpoints.push(e)
                &&& e.channel == channel
                &&& e.info.id == reply.client_id@
                &&& e.info.url == u
                &&& e.info.protocol == reply.proto@
                &&& e.info.upstream_url is None
                &&& match opts.name {
                    Some(name) => e.info.name == name@,
                    None => e.info.name.len() == 0,
                }
            }
            &&& after.inner.tunnels == v.inner.tunnels.push(tunnel)
            &&& tunnel.accept_tx == channel
            &&& tunnel.bind_req.proto == bind_view(opts@, requested).proto
            &&& after.inner.tunnel_senders == v.inner.tunnel_senders.insert(
                reply.client_id@,
                channel,
            )
            &&& after.inner.raw_session == v.inner.raw_session
            &&& after.inner.session == v.inner.session
            &&& after.inner.closed == v.inner.closed
            &&& after.inner.connected == v.inner.connected
            &&& after.inner.cookie == v.inner.cookie
            &&& after.inner.auth_extra == v.inner.auth_extra
            &&& after.inner.event_handlers == v.inner.event_handlers
            &&& after.task == v.task && after.rpc_handler == v.rpc_handler
            &&& after.dial_config == v.dial_config
        }),
{
}

/// A forwarder is the endpoint of its listener, and goes to the upstream over TCP, with the protocol
/// and the PROXY protocol version that the upstream asks for.
pub proof fn forwarder_goes_to_its_upstream(
    f: EndpointForwarder,
    upstream: Upstream,
    listener: EndpointListener,
    target: UrlView,
)
    requires
        f@ == forwarder_of(upstream@, listener@, target),
    ensures
        f.url@ == listener.url@,
        f.id@ == listener.id@,
        f.upstream_url@ == target,
        match (f.upstream_protocol, upstream.protocol) {
            (Some(p), Some(q)) => p@ == q@,
            (None, None) => true,
            _ => false,
        },
        f.proxy_proto == upstream.proxy_proto,
{
}

/// The URL of an upstream is that of TCP at its address, whenever that can be parsed.
pub proof fn upstream_is_reached_over_tcp(addr: Seq<char>)
    ensures
        urls::url_parse("tcp://"@ + addr) is Ok ==> upstream_url_at(addr) == urls::url_parse(
            "tcp://"@ + addr,
        ),
        urls::url_parse("tcp://"@ + addr) is Err ==> upstream_url_at(addr) == urls::url_parse(
            "tcp://localhost:0"@,
        ),
{
}

/// Making the newest endpoint a forwarder gives it the URL of its upstream. Nothing else of it
/// changes, and nothing of any other endpoint.
pub proof fn only_the_newest_becomes_a_forwarder(front: Seq<OpenView>, newest: OpenView, target: UrlView)
    ensures
        ({
            let after = newest_forwards(front.push(newest), target);
            &&& after.len() == front.len() + 1
            &&& after.drop_last() == front
            &&& after.last().info.upstream_url == Some(target)
            &&& after.last().channel == newest.channel
            &&& after.last().info.id == newest.info.id
            &&& after.last().info.name == newest.info.name
            &&& after.last().info.url == newest.info.url
            &&& after.last().info.protocol == newest.info.protocol
        }),
        newest_forwards(Seq::empty(), target).len() == 0,
{
    let all = front.push(newest);
    assert(all.drop_last() =~= front);
    assert(newest_forwards(all, target).drop_last() =~= front);
}

/// Closing an endpoint takes it, and it alone, off the list, on which the others stay in order. The
/// loop, the session and how the agent dials stay as they are.
pub proof fn closing_takes_one_endpoint(v: AgentView, channel: ChannelId, e: OpenView)
    ensures
        ({
            let after = without_endpoint(v, channel);
            let more = without_endpoint(AgentView { endpoints: v.endpoints.push(e), ..v }, channel);
            &&& v.endpoints.len() == 0 ==> after.endpoints.len() == 0
            &&& more.endpoints == (if e.channel == channel {
                after.endpoints
            } else {
                after.endpoints.push(e)
            })
            &&& after.inner == reconnecting::without_tunnel(v.inner, channel)
            &&& after.task == v.task && after.rpc_handler == v.rpc_handler
            &&& after.dial_config == v.dial_config
        }),
{
    reveal(Seq::filter);
    assert(v.endpoints.push(e).drop_last() =~= v.endpoints);
    if v.endpoints.len() == 0 {
        assert(v.endpoints.filter(|e: OpenView| e.channel != channel) =~= Seq::empty());
    }
}

/// A disconnected agent is closed, has no endpoint and no tunnel, and hands out no connection. The
/// session that it had, and everything by which it was known, is as before.
pub proof fn disconnecting_closes_everything(v: AgentView, id: Seq<char>)
    ensures
        ({
            let after = disconnected(v);
            &&& after.inner.closed
            &&& after.endpoints.len() == 0
            &&& after.inner.tunnels.len() == 0
            &&& !after.inner.tunnel_senders.contains_key(id)
            &&& after.inner.raw_session == v.inner.raw_session
            &&& after.inner.session == v.inner.session
            &&& after.inner.connected == v.inner.connected
            &&& after.inner.cookie == v.inner.cookie
            &&& after.inner.auth_extra == v.inner.auth_extra
            &&& after.inner.event_handlers == v.inner.event_handlers
            &&& after.task == v.task && after.rpc_handler == v.rpc_handler
            &&& after.dial_config == v.dial_config
        }),
{
}

/// Connecting starts the reconnect loop of an agent that has none, at its top, with the shortest
/// wait and nothing to bind again, and leaves a loop that runs alone. Nothing else changes.
pub proof fn connecting_starts_the_loop(v: AgentView)
    ensures
        started(v).task is Some,
        v.task is Some ==> started(v).task == v.task,
        v.task is None ==> started(v).task->0.phase is Top && started(v).task->0.backoff_ms == 500
            && started(v).task->0.queue.len() == 0,
        started(v).inner == v.inner && started(v).endpoints == v.endpoints,
        started(v).rpc_handler == v.rpc_handler && started(v).dial_config == v.dial_config,
{
}

/// The reconnect loop of an agent works on the agent's own state, from where the loop stands.
pub proof fn loop_works_on_the_agent(v: AgentView)
    ensures
        loop_of(v).inner == v.inner,
        v.task matches Some(task) ==> loop_of(v).phase == task.phase && loop_of(v).backoff_ms
            == task.backoff_ms && loop_of(v).queue == task.queue,
        v.task is None ==> loop_of(v).phase is Top && loop_of(v).backoff_ms == 500
            && loop_of(v).queue.len() == 0,
{
}

/// Over any course of the reconnect loop, binds go over the session that was dialed last: once a
/// dial was taken, its session stays the one for binds for as long as no other is dialed and it does
/// not end, whatever else happens.
pub proof fn dialed_session_is_used_until_it_ends(
    v: LoopView,
    raw: RawSession,
    later: Seq<LoopEvent>,
)
    requires
        v.inner.raw_session == Some(raw),
        forall|i: int|
            0 <= i < later.len() ==> !((#[trigger] later[i]) is Dialed) && !(later[i] is Ended),
    ensures
        loop_after(v, later.map_values(|e: LoopEvent| e@)).inner.raw_session == Some(raw),
    decreases later.len(),
{
    if later.len() > 0 {
        let front = later.drop_last();
        assert forall|i: int| 0 <= i < front.len() implies !((#[trigger] front[i]) is Dialed)
            && !(front[i] is Ended) by {
            assert(later[i] == front[i]);
        }
        dialed_session_is_used_until_it_ends(v, raw, front);
        let all = later.map_values(|e: LoopEvent| e@);
        assert(all.drop_last() =~= front.map_values(|e: LoopEvent| e@));
        let before = loop_after(v, all.drop_last());
        let last = later[later.len() - 1];
        assert(all.last() == last@);
        reconnecting::binds_go_over_the_session_dialed_last(before, last);
    }
}

/// A course of the loop is its events, one after the other: each is taken where the ones before it
/// led, if it can happen there.
pub proof fn courses_go_on_event_by_event(v: LoopView, events: Seq<LoopEventView>, e: LoopEventView)
    ensures
        loop_after(v, Seq::empty()) == v,
        ({
            let before = loop_after(v, events);
            loop_after(v, events.push(e)) == if reconnecting::expects(before, e) {
                reconnecting::loop_step(before, e).0
            } else {
                before
            }
        }),
{
    assert(events.push(e).drop_last() =~= events);
}

/// An agent that was built introduces itself with the token and everything else that it was given:
/// the machine as it is, its own version unless another was set, the name of its client in front of
/// the library's version, and the heartbeats in milliseconds. It sends no cookie yet, and supports
/// every command.
pub proof fn built_agent_introduces_itself(
    a: Agent,
    b: AgentBuilder,
    authtoken: Seq<char>,
    facts: HostFacts,
)
    requires
        is_built(a, b@, authtoken, facts),
    ensures
        ({
            let sent = a@.inner.auth_extra;
            &&& sent.authtoken == authtoken
            &&& sent.os == facts.os@ && sent.arch == facts.arch@
            &&& match b.client_version {
                Some(version) => sent.version == version@,
                None => sent.version == facts.version@,
            }
            &&& match facts.hostname {
                Some(name) => sent.hostname == name@,
                None => sent.hostname.len() == 0,
            }
            &&& match b.client_type {
                Some(client) => sent.user_agent == client@ + seq!['/'] + facts.version@,
                None => sent.user_agent == "ngrok-rust"@ + seq!['/'] + facts.version@,
            }
            &&& match b.metadata {
                Some(metadata) => sent.metadata == metadata@,
                None => sent.metadata.len() == 0,
            }
            &&& b.heartbeat_interval.millis() <= i64::MAX ==> sent.heartbeat_interval_ms
                == b.heartbeat_interval.millis()
            &&& b.heartbeat_tolerance.millis() <= i64::MAX ==> sent.heartbeat_tolerance_ms
                == b.heartbeat_tolerance.millis()
            &&& sent.cookie.len() == 0
            &&& sent.stop_unsupported_error is None
            &&& sent.restart_unsupported_error is None
            &&& sent.update_unsupported_error is None
        }),
{
    reveal_strlit("/");
    reveal_strlit("ngrok-rust/");
    reveal_strlit("ngrok-rust");
    assert("/"@ =~= seq!['/']);
    assert("ngrok-rust/"@ =~= "ngrok-rust"@ + seq!['/']);
}

/// An agent that was built has no session, no endpoint and no tunnel, is open, and runs its reconnect
/// loop if and only if it is to connect by itself. It dials the address that was set, or that of
/// ngrok cloud, and its handlers are those that were registered.
pub proof fn built_agent_starts_afresh(
    a: Agent,
    b: AgentBuilder,
    authtoken: Seq<char>,
    facts: HostFacts,
    id: Seq<char>,
)
    requires
        is_built(a, b@, authtoken, facts),
    ensures
        a@.inner.session is None && a@.inner.raw_session is None,
        !a@.inner.connected && !a@.inner.closed,
        a@.inner.tunnels.len() == 0 && a@.endpoints.len() == 0 && a@.inner.cookie.len() == 0,
        !a@.inner.tunnel_senders.contains_key(id),
        a@.task is Some == b.auto_connect,
        a@.task matches Some(task) ==> task.phase is Top && task.backoff_ms == 500
            && task.queue.len() == 0,
        a@.inner.event_handlers == b.event_handlers@,
        a@.rpc_handler == b.rpc_handler,
        match b.connect_url {
            Some(url) => a@.dial_config.connect_url@ == url@,
            None => a@.dial_config.connect_url@ == "connect.ngrok-agent.com:443"@,
        },
        a@.dial_config.heartbeat_interval == b.heartbeat_interval,
        a@.dial_config.heartbeat_tolerance == b.heartbeat_tolerance,
{
}

/// A hostname ends in front of the first zero byte, if there is one: what is taken holds none, and
/// is followed by one or is all there is.
pub proof fn hostname_ends_at_the_first_zero(buf: Seq<u8>)
    ensures
        before_zero(buf).len() <= buf.len(),
        buf.take(before_zero(buf).len() as int) == before_zero(buf),
        !before_zero(buf).contains(0),
        before_zero(buf).len() < buf.len() ==> buf[before_zero(buf).len() as int] == 0,
    decreases buf.len(),
{
    if buf.len() == 0 || buf[0] == 0 {
        assert(buf.take(0) =~= Seq::<u8>::empty());
    } else {
        let rest = buf.skip(1);
        hostname_ends_at_the_first_zero(rest);
        let n = before_zero(rest).len() as int;
        assert(buf.take(n + 1) =~= seq![buf[0]] + rest.take(n));
        assert forall|i: int| 0 <= i < before_zero(buf).len() implies before_zero(buf)[i] != 0 by {
            if i > 0 {
                assert(before_zero(buf)[i] == before_zero(rest)[i - 1]);
                assert(before_zero(rest).contains(before_zero(rest)[i - 1]));
            }
        }
    }
}

/// What an agent is built from is what was set on its builder.
pub proof fn builder_holds_what_was_set(b: AgentBuilder)
    ensures
        match (b.authtoken, b@.authtoken) {
            (Some(t), Some(token)) => t@ == token,
            (None, None) => true,
            _ => false,
        },
        match (b.connect_ca_cert, b@.connect_ca_cert) {
            (Some(c), Some(file)) => c@ == file,
            (None, None) => true,
            _ => false,
        },
        b@.tls_config == b.tls_config,
        b@.auto_connect == b.auto_connect,
{
    if let Some(c) = b.connect_ca_cert {
        assert(c.deep_view() =~= c@);
    }
}

/// A builder on which nothing was set has no token, brings no trust of its own, connects by itself,
/// and sends heartbeats every 10 seconds with a tolerance of 15.
pub proof fn new_builder_has_the_defaults(b: AgentBuilder)
    requires
        b@ == new_builder(),
    ensures
        b.authtoken is None && b.connect_url is None && b.tls_config is None,
        b.connect_ca_cert is None && b.proxy_url is None,
        b.auto_connect,
        b.heartbeat_interval.millis() == 10_000 && b.heartbeat_tolerance.millis() == 15_000,
        b.client_type is None && b.client_version is None,
        b.description is None && b.metadata is None,
        b.event_handlers@.len() == 0 && b.rpc_handler is None && !b.with_tracing,
{
}

/// An upstream address is resolved to the host and port that it names. A URL with a host is resolved
/// to that host at its own port or, without one, at that of HTTPS or HTTP.
pub proof fn address_is_resolved_to_host_and_port(
    addr: &str,
    url: Option<Url>,
    r: Result<String, Error>,
)
    requires
        call_ensures(resolve_parsed_addr, (addr, url), r),
    ensures
        url matches Some(u) ==> r is Ok,
        url matches Some(u) ==> (u.host matches Some(host) ==> r->Ok_0@ == host@ + seq![':']
            + text::decimal(
            match u.port {
                Some(port) => port as nat,
                None => if u.scheme@ == "https"@ {
                    443
                } else {
                    80
                },
            },
        )),
        url matches Some(u) ==> (u.host is None && text::is_host_and_port(addr@) ==> r->Ok_0@
            == addr@),
        url matches Some(u) ==> (u.host is None && !text::is_host_and_port(addr@) ==> r->Ok_0@
            == "localhost"@ + seq![':'] + text::decimal(
            match u.port {
                Some(port) => port as nat,
                None => if u.scheme@ == "https"@ {
                    443
                } else {
                    80
                },
            },
        )),
        url is None ==> match text::port_number(addr@) {
            Some(port) => r matches Ok(a) && a@ == "localhost"@ + seq![':'] + text::decimal(
                port as nat,
            ),
            None => if addr@.contains(':') {
                r matches Ok(a) && a@ == addr@
            } else {
                r matches Err(Error::InvalidUpstream(a)) && a@ == addr@
            },
        },
{
    match url {
        Some(u) => match u.host {
            Some(host) => {
                upstream_url_keeps_its_host_and_port(addr@, u@, host@, r);
            },
            None => {
                upstream_url_without_a_host(addr@, u@, r);
            },
        },
        None => {
            upstream_address_that_is_no_url(addr@, r);
        },
    }
}

/// Resolving an address is resolving it with what it parses to as a URL.
pub proof fn address_is_resolved_as_it_parses(
    addr: &str,
    url: Option<Url>,
    r: Result<String, Error>,
    parsed: Result<String, Error>,
)
    requires
        call_ensures(resolve_upstream_addr, (addr,), r),
        call_ensures(resolve_parsed_addr, (addr, url), parsed),
        urls::url_parse(addr@) matches Ok(u) ==> url is Some && url->0@ == u,
        urls::url_parse(addr@) is Err ==> url is None,
    ensures
        r is Ok <==> parsed is Ok,
        r is Ok ==> r->Ok_0@ == parsed->Ok_0@,
{
}

/// A new endpoint is bound over the current session of an open agent, and not at all where there is
/// none or the agent was disconnected.
pub proof fn endpoint_is_bound_over_the_current_session(
    agent: &Agent,
    opts: &EndpointOptions,
    r: Result<(RawSession, BindReq), Error>,
)
    requires
        call_ensures(Agent::listen_request, (agent, opts), r),
    ensures
        r is Ok <==> agent@.inner.raw_session is Some && !agent@.inner.closed,
        r matches Err(e) ==> e is NotConnected,
        r matches Ok((over, request)) ==> {
            &&& Some(over) == agent@.inner.raw_session
            &&& json::is_object(request.opts)
            &&& json::members(request.opts) == bind_members(opts@)
            &&& request.client_id@.len() == 0
            &&& match opts.url {
                Some(url) => match urls::url_parse(url@) {
                    Ok(u) => request.proto@ == u.scheme,
                    Err(_) => request.proto@ == "https"@,
                },
                None => request.proto@ == "https"@,
            }
        },
{
    if let Ok((over, request)) = r {
        bind_request_names_the_protocol(*opts, request);
    }
}

/// The loop of an agent is taken one step further by an event that can happen where it stands, and
/// the agent then binds over the session that was dialed last; any other event changes nothing.
/// Endpoints, handlers and how the agent dials stay as they are.
pub proof fn agent_takes_its_loop_further(agent: &mut Agent, e: LoopEvent, r: Option<LoopAction>)
    requires
        call_ensures(Agent::reconnect, (agent, e), r),
    ensures
        r is None ==> *final(agent) == *old(agent),
        r is Some ==> match e {
            LoopEvent::Dialed { raw, resp, at } => final(agent)@.inner.raw_session == Some(raw)
                && final(agent)@.inner.cookie == resp.extra.cookie@ && (
                final(agent)@.inner.session matches Some(s) && s.id
                    == resp.extra.agent_session_id@),
            LoopEvent::Ended { .. } => final(agent)@.inner.raw_session is None && final(agent)@.inner.session == old(agent)@.inner.session,
            _ => final(agent)@.inner.raw_session == old(agent)@.inner.raw_session && final(agent)@.inner.session == old(agent)@.inner.session,
        },
        r is Some && e is Woke && !old(agent)@.inner.closed ==> r->0 is Dial,
        r is Some && e is Woke && old(agent)@.inner.closed ==> r->0 is Stop,
        r is Some && e is Ended && !old(agent)@.inner.closed ==> r->0 is Sleep,
        final(agent)@.inner.tunnels == old(agent)@.inner.tunnels,
        final(agent)@.inner.closed == old(agent)@.inner.closed,
        final(agent)@.endpoints == old(agent)@.endpoints,
        final(agent)@.rpc_handler == old(agent)@.rpc_handler,
        final(agent)@.dial_config == old(agent)@.dial_config,
{
    let v = loop_of(agent@);
    if r is Some {
        reconnecting::binds_go_over_the_session_dialed_last(v, e);
        reconnecting::session_is_that_of_the_answer(v, e);
        reconnecting::agent_is_connected_while_it_serves(v, e);
        reconnecting::every_event_is_answered(v, e);
        reconnecting::ordered_action_is_performed(
            r->0,
            reconnecting::loop_step(v, e@).1,
            agent@.inner.event_handlers,
        );
        assert(final(agent)@.inner == reconnecting::loop_step(v, e@).0.inner);
    }
}

/// Disconnecting closes the agent and all its endpoints: none is listed, no ID leads anywhere, and
/// nothing is bound again. What is left to do is to tell every endpoint that was open, and to end the
/// session.
pub proof fn disconnecting_names_what_is_left(agent: &mut Agent, r: Disconnecting, id: Seq<char>)
    requires
        call_ensures(Agent::disconnect, (agent,), r),
    ensures
        final(agent)@.inner.closed,
        final(agent)@.endpoints.len() == 0,
        final(agent)@.inner.tunnels.len() == 0,
        !final(agent)@.inner.tunnel_senders.contains_key(id),
        r.session == old(agent)@.inner.raw_session,
        r.channels@.len() == old(agent)@.endpoints.len(),
        forall|i: int|
            0 <= i < r.channels@.len() ==> #[trigger] r.channels@[i] == old(agent)@.endpoints[i].channel,
{
    disconnecting_closes_everything(agent@, id);
    assert forall|i: int| 0 <= i < r.channels@.len() implies #[trigger] r.channels@[i] == old(agent)@.endpoints[i].channel by {
        assert(old(agent)@.endpoints.map_values(|e: OpenView| e.channel)[i] == old(agent)@.endpoints[i].channel);
    }
}

/// Closing an endpoint takes it off the list and takes away every route to it; what else is listed or
/// routed stays.
pub proof fn closing_an_endpoint_takes_it_alone(
    agent: &mut Agent,
    channel: ChannelId,
    e: OpenView,
    id: Seq<char>,
)
    requires
        call_ensures(Agent::endpoint_closed, (agent, channel), ()),
    ensures
        final(agent)@.endpoints.contains(e) <==> old(agent)@.endpoints.contains(e) && e.channel
            != channel,
        final(agent)@.inner.tunnel_senders.contains_key(id) <==> old(agent)@.inner.tunnel_senders.contains_key(id) && old(agent)@.inner.tunnel_senders[id] != channel,
        final(agent)@.inner.tunnel_senders.contains_key(id) ==> final(agent)@.inner.tunnel_senders[id] == old(agent)@.inner.tunnel_senders[id],
        forall|i: int|
            0 <= i < final(agent)@.inner.tunnels.len() ==> (#[trigger] final(agent)@.inner.tunnels[i]).accept_tx != channel,
        final(agent)@.inner.raw_session == old(agent)@.inner.raw_session,
        final(agent)@.inner.closed == old(agent)@.inner.closed,
        final(agent)@.task == old(agent)@.task,
{
    let v = agent@;
    endpoints_are_those_not_closed(v, channel, e);
    reconnecting::closing_takes_one_tunnel(v.inner, channel, arbitrary(), id);
    let other = TunnelView {
        accept_tx: ChannelId { slot: if channel.slot == 0 { 1 } else { 0 } },
        bind_req: arbitrary(),
    };
    reconnecting::closed_tunnel_stays_closed(
        loop_of(v),
        LoopEventView::Woke,
        channel,
        other,
        Seq::empty(),
        None,
    );
    let after = final(agent)@.inner;
    assert forall|i: int| 0 <= i < after.tunnels.len() implies (
    #[trigger] after.tunnels[i]).accept_tx != channel by {
        if after.tunnels[i].accept_tx == channel {
            assert(reconnecting::is_bound(after.tunnels, channel));
        }
    }
}

/// Opening a listener, by the answer to its bind. A disconnected agent opens nothing. A refused bind
/// changes nothing, and the error repeats the message. Otherwise, if the assigned URL is one, the
/// listener is what was assigned, its connections come over its channel, and it is listed behind the
/// others.
pub proof fn listener_is_opened_as_answered(
    agent: &mut Agent,
    opts: EndpointOptions,
    requested: Option<Url>,
    reply: BindResp,
    assigned: Result<Url, ParseError>,
    channel: ChannelId,
    r: Result<EndpointListener, Error>,
)
    requires
        call_ensures(Agent::listen_at, (agent, opts, requested, reply, assigned, channel), r),
    ensures
        r is Ok <==> !old(agent)@.inner.closed && reply.error@.len() == 0 && assigned is Ok,
        old(agent)@.inner.closed ==> *final(agent) == *old(agent) && (r matches Err(
            Error::NotConnected,
        )),
        !old(agent)@.inner.closed && reply.error@.len() > 0 ==> *final(agent) == *old(agent) && (
        r matches Err(Error::Cloud { code, message }) && message@ == reply.error@),
        r matches Ok(l) ==> {
            let e = final(agent)@.endpoints.last();
            &&& l.id@ == reply.client_id@ && l.protocol@ == reply.proto@
            &&& l.url@ == assigned->Ok_0@
            &&& match opts.name {
                Some(name) => l.name@ == name@,
                None => l.name@.len() == 0,
            }
            &&& match opts.metadata {
                Some(metadata) => l.metadata@ == metadata@,
                None => l.metadata@.len() == 0,
            }
            &&& final(agent)@.endpoints == old(agent)@.endpoints.push(e)
            &&& e.channel == channel && e.info.id == reply.client_id@ && e.info.url == l.url@
            &&& e.info.protocol == reply.proto@ && e.info.name == l.name@
            &&& e.info.upstream_url is None
            &&& final(agent)@.inner.tunnel_senders == old(agent)@.inner.tunnel_senders.insert(
                reply.client_id@,
                channel,
            )
            &&& final(agent)@.inner.tunnels.len() == old(agent)@.inner.tunnels.len() + 1
            &&& final(agent)@.inner.tunnels.last().accept_tx == channel
            &&& final(agent)@.inner.raw_session == old(agent)@.inner.raw_session
        },
{
    if let Ok(l) = r {
        listener_is_what_was_assigned(l, opts, reply, assigned->Ok_0@);
        opened_endpoint_is_listed(
            agent@,
            opts,
            urls::maybe(requested),
            channel,
            reply,
            urls::outcome(assigned),
        );
    }
}

/// Opening a forwarder, by the answer to its bind: if it succeeds, its connections go to what the
/// upstream address resolves to, it is listed last with the URL of that upstream, and its connections
/// come over its channel. If it fails, nothing leads to its channel.
pub proof fn forwarder_is_opened_to_its_upstream(
    agent: &mut Agent,
    upstream: Upstream,
    opts: EndpointOptions,
    reply: BindResp,
    channel: ChannelId,
    r: Result<(EndpointForwarder, String), Error>,
    resolves: Result<String, Error>,
)
    requires
        call_ensures(Agent::forward, (agent, upstream, opts, reply, channel), r),
        resolves_to(
            resolves,
            upstream.addr@,
            resolved(upstream.addr@, urls::url_parse(upstream.addr@).ok()),
        ),
    ensures
        r is Ok ==> !old(agent)@.inner.closed && reply.error@.len() == 0 && resolves is Ok,
        r matches Ok((f, to)) ==> {
            let e = final(agent)@.endpoints.last();
            &&& to@ == resolves->Ok_0@
            &&& f.id@ == reply.client_id@
            &&& Ok::<UrlView, Seq<char>>(f.url@) == urls::url_parse(reply.url@)
            &&& urls::url_parse("tcp://"@ + to@) matches Ok(u) ==> f.upstream_url@ == u
            &&& match (f.upstream_protocol, upstream.protocol) {
            (Some(a), Some(b)) => a@ == b@,
            (None, None) => true,
            _ => false,
        }
            &&& f.proxy_proto == upstream.proxy_proto
            &&& final(agent)@.endpoints.len() == old(agent)@.endpoints.len() + 1
            &&& final(agent)@.endpoints.drop_last() == old(agent)@.endpoints
            &&& e.channel == channel && e.info.id == reply.client_id@
            &&& e.info.upstream_url == Some(f.upstream_url@)
            &&& final(agent)@.inner.tunnel_senders == old(agent)@.inner.tunnel_senders.insert(
                reply.client_id@,
                channel,
            )
        },
        r is Err && !old(agent)@.inner.closed && reply.error@.len() == 0 ==> reconnecting::is_closed(
            final(agent)@.inner,
            channel,
        ),
        r is Err && (old(agent)@.inner.closed || reply.error@.len() > 0) ==> *final(agent) == *old(agent),
        !old(agent)@.inner.closed && reply.error@.len() == 0 && resolves is Err && urls::url_parse(
            reply.url@,
        ) is Ok ==> (r matches Err(Error::InvalidUpstream(a)) && a@ == upstream.addr@),
{
    let v = agent@;
    let to = assigned_by(reply, urls::url_parse(reply.url@));
    let requested = requested_url(opts@);
    let opened = listening(v, opts@, requested, channel, to);
    if let Ok((f, a)) = r {
        let url = to.url->Ok_0;
        opened_endpoint_is_listed(v, opts, requested, channel, reply, to.url);
        only_the_newest_becomes_a_forwarder(v.endpoints, opened.endpoints.last(), f.upstream_url@);
        assert(opened.endpoints == v.endpoints.push(opened.endpoints.last()));
    }
    let other = TunnelView {
        accept_tx: ChannelId { slot: if channel.slot == 0 { 1 } else { 0 } },
        bind_req: arbitrary(),
    };
    reconnecting::closed_tunnel_stays_closed(
        loop_of(opened),
        LoopEventView::Woke,
        channel,
        other,
        Seq::empty(),
        None,
    );
}

/// Building an agent needs an authtoken. With a TLS configuration of its own the agent uses exactly
/// that one; otherwise it trusts the custom CA, the bundled one and the native roots, or says why it
/// cannot. It then introduces itself with its token.
pub proof fn agent_is_built_with_token_and_trust(
    b: AgentBuilder,
    facts: HostFacts,
    bundled: &[u8],
    native: &Vec<Vec<u8>>,
    r: Result<Agent, Error>,
)
    requires
        call_ensures(AgentBuilder::build, (b, facts, bundled, native), r),
    ensures
        b.authtoken is None ==> (r matches Err(Error::MissingAuthtoken)),
        b.authtoken is Some && b.tls_config is Some ==> r is Ok,
        r matches Ok(a) ==> {
            &&& b.authtoken is Some
            &&& a@.inner.auth_extra.authtoken == b.authtoken->0@
            &&& b.tls_config matches Some(cfg) ==> a@.dial_config.tls_config == cfg
            &&& b.tls_config is None ==> certs::trusted_roots(
                b.connect_ca_cert.deep_view(),
                bundled@,
                native.deep_view(),
            ) == Ok::<Seq<certs::AnchorView>, Seq<char>>(
                certs::config_roots(a@.dial_config.tls_config),
            )
            &&& a@.inner.auth_extra.os == facts.os@
            &&& a@.task is Some == b.auto_connect
            &&& a@.endpoints.len() == 0
            &&& !a@.inner.closed && a@.inner.raw_session is None
        },
        b.authtoken is Some && b.tls_config is None ==> (r is Err <==> certs::trusted_roots(
            b.connect_ca_cert.deep_view(),
            bundled@,
            native.deep_view(),
        ) is Err),
{
    if let Ok(a) = r {
        if let Some(token) = b.authtoken {
            built_agent_introduces_itself(a, b, token@, facts);
            built_agent_starts_afresh(a, b, token@, facts, Seq::empty());
        }
    }
}

/// Connecting an agent says whether the loop was just started, so that it is run exactly once, and
/// whether there is a session already.
pub proof fn connecting_says_what_is_left(agent: &mut Agent, r: Connecting)
    requires
        call_ensures(Agent::connect, (agent,), r),
    ensures
        r.start <==> old(agent)@.task is None,
        r.connected <==> old(agent)@.inner.connected,
        final(agent)@.task is Some,
        old(agent)@.task is Some ==> final(agent)@.task == old(agent)@.task,
        final(agent)@.inner == old(agent)@.inner && final(agent)@.endpoints == old(agent)@.endpoints,
{
    connecting_starts_the_loop(agent@);
}

/// Setting something on a builder sets that, and nothing else.
pub proof fn agent_builder_sets_one_thing(
    b: AgentBuilder,
    text: &str,
    with_token: AgentBuilder,
    with_url: AgentBuilder,
    with_metadata: AgentBuilder,
    with_description: AgentBuilder,
    ca: &[u8],
    with_ca: AgentBuilder,
    cfg: rustls::ClientConfig,
    with_tls: AgentBuilder,
    on: bool,
    with_auto: AgentBuilder,
)
    requires
        call_ensures(AgentBuilder::authtoken, (b, text), with_token),
        call_ensures(AgentBuilder::connect_url, (b, text), with_url),
        call_ensures(AgentBuilder::metadata, (b, text), with_metadata),
        call_ensures(AgentBuilder::description, (b, text), with_description),
        call_ensures(AgentBuilder::connect_ca_cert, (b, ca), with_ca),
        call_ensures(AgentBuilder::tls_config, (b, cfg), with_tls),
        call_ensures(AgentBuilder::auto_connect, (b, on), with_auto),
    ensures
        with_token@ == (AgentBuilderView { authtoken: Some(text@), ..b@ }),
        with_url@ == (AgentBuilderView { connect_url: Some(text@), ..b@ }),
        with_metadata@ == (AgentBuilderView { metadata: Some(text@), ..b@ }),
        with_description@ == (AgentBuilderView { description: Some(text@), ..b@ }),
        with_ca@ == (AgentBuilderView { connect_ca_cert: Some(ca@), ..b@ }),
        with_tls@ == (AgentBuilderView { tls_config: Some(cfg), ..b@ }),
        with_auto@ == (AgentBuilderView { auto_connect: on, ..b@ }),
{
}

/// Heartbeats, the client and the handlers of an agent are set one at a time, too; a further event
/// handler is called behind those that were registered before.
pub proof fn agent_builder_sets_heartbeats_and_handlers(
    b: AgentBuilder,
    d: Span,
    with_interval: AgentBuilder,
    with_tolerance: AgentBuilder,
    client: &str,
    version: &str,
    with_client: AgentBuilder,
    handler: HandlerId,
    with_event: AgentBuilder,
    with_rpc: AgentBuilder,
)
    requires
        call_ensures(AgentBuilder::heartbeat_interval, (b, d), with_interval),
        call_ensures(AgentBuilder::heartbeat_tolerance, (b, d), with_tolerance),
        call_ensures(AgentBuilder::client_info, (b, client, version), with_client),
        call_ensures(AgentBuilder::on_event, (b, handler), with_event),
        call_ensures(AgentBuilder::on_rpc, (b, handler), with_rpc),
    ensures
        with_interval@ == (AgentBuilderView { heartbeat_interval: d, ..b@ }),
        with_tolerance@ == (AgentBuilderView { heartbeat_tolerance: d, ..b@ }),
        with_client@ == (AgentBuilderView {
            client_type: Some(client@),
            client_version: Some(version@),
            ..b@
        }),
        with_event@ == (AgentBuilderView {
            event_handlers: b@.event_handlers.push(handler),
            ..b@
        }),
        with_rpc@ == (AgentBuilderView { rpc_handler: Some(handler), ..b@ }),
{
}

/// The endpoints of an agent are listed in order, each as it was opened, and its session is the one
/// that it has.
pub proof fn agent_lists_its_endpoints(agent: &Agent, list: Vec<EndpointInfo>, s: Option<AgentSession>)
    requires
        call_ensures(Agent::endpoints, (agent,), list),
        call_ensures(Agent::session, (agent,), s),
    ensures
        list@.len() == agent@.endpoints.len(),
        forall|i: int|
            0 <= i < list@.len() ==> (#[trigger] list@[i])@ == agent@.endpoints[i].info,
        s is Some <==> agent@.inner.session is Some,
        s matches Some(session) ==> session.id@ == agent@.inner.session->0.id && session.started_at
            == agent@.inner.session->0.started_at,
{
    let views = list@.map_values(|e: EndpointInfo| e@);
    let infos = agent@.endpoints.map_values(|e: OpenView| e.info);
    assert(views == infos);
    assert(views.len() == list@.len());
    assert forall|i: int| 0 <= i < list@.len() implies (#[trigger] list@[i])@
        == agent@.endpoints[i].info by {
        assert(views[i] == infos[i]);
    }
}

/// Opening a listener with the URLs as they were given is opening it with what they parse to.
pub proof fn listener_is_opened_with_parsed_urls(
    agent: &mut Agent,
    opts: EndpointOptions,
    reply: BindResp,
    channel: ChannelId,
    r: Result<EndpointListener, Error>,
)
    requires
        call_ensures(Agent::listen, (agent, opts, reply, channel), r),
    ensures
        r is Ok <==> !old(agent)@.inner.closed && reply.error@.len() == 0 && urls::url_parse(
            reply.url@,
        ) is Ok,
        old(agent)@.inner.closed || reply.error@.len() > 0 ==> *final(agent) == *old(agent),
        r matches Ok(l) ==> {
            let e = final(agent)@.endpoints.last();
            &&& l.id@ == reply.client_id@ && l.protocol@ == reply.proto@
            &&& urls::url_parse(reply.url@) == Ok::<UrlView, Seq<char>>(l.url@)
            &&& final(agent)@.endpoints == old(agent)@.endpoints.push(e)
            &&& e.channel == channel && e.info.id == reply.client_id@
            &&& final(agent)@.inner.tunnel_senders == old(agent)@.inner.tunnel_senders.insert(
                reply.client_id@,
                channel,
            )
        },
        r is Err && !old(agent)@.inner.closed && reply.error@.len() == 0 ==> reconnecting::is_closed(
            final(agent)@.inner,
            channel,
        ),
{
    let v = agent@;
    let to = assigned_by(reply, urls::url_parse(reply.url@));
    let requested = requested_url(opts@);
    let opened = listening(v, opts@, requested, channel, to);
    opened_endpoint_is_listed(v, opts, requested, channel, reply, to.url);
    let other = TunnelView {
        accept_tx: ChannelId { slot: if channel.slot == 0 { 1 } else { 0 } },
        bind_req: arbitrary(),
    };
    reconnecting::closed_tunnel_stays_closed(
        loop_of(opened),
        LoopEventView::Woke,
        channel,
        other,
        Seq::empty(),
        None,
    );
}

/// A probe without an address goes to ngrok cloud, and says of whatever it came to at which address.
pub proof fn probe_goes_where_it_is_told(
    addr: Option<&str>,
    at: &str,
    probe: Probe,
    r: Result<DiagnoseResult, DiagnoseError>,
)
    requires
        call_ensures(Agent::probe_addr, (addr,), at),
        call_ensures(Agent::diagnose, (addr, probe), r),
    ensures
        addr matches Some(a) ==> at@ == a@,
        addr is None ==> at@ == "connect.ngrok-agent.com:443"@,
        r is Ok <==> probe is Answered,
        r matches Ok(d) ==> d.addr@ == at@,
        r matches Err(DiagnoseError::Tcp { addr: a, source }) ==> a@ == at@,
{
}

/// A hostname is there if and only if the system call succeeded and gave UTF-8 up to the first zero
/// byte, and is that text.
pub proof fn hostname_is_what_the_system_gave(status: i32, buf: &[u8], r: Option<String>)
    requires
        call_ensures(gethostname, (status, buf), r),
    ensures
        r is Some <==> status == 0 && vstd::utf8::valid_utf8(before_zero(buf@)),
        r matches Some(name) ==> name@ == vstd::utf8::decode_utf8(before_zero(buf@)),
{
}

/// An agent takes an event of its loop if and only if it has a loop and the event can happen where the
/// loop stands, whether or not the agent was disconnected meanwhile.
pub proof fn agent_takes_every_event_that_can_happen(
    agent: &mut Agent,
    e: LoopEvent,
    r: Option<LoopAction>,
)
    requires
        call_ensures(Agent::reconnect, (agent, e), r),
    ensures
        r is Some <==> old(agent)@.task is Some && old(agent)@.task->0.phase == match e {
            LoopEvent::Woke => Phase::Top,
            LoopEvent::DialFailed | LoopEvent::Dialed { .. } => Phase::Dialing,
            LoopEvent::Rebound(_) | LoopEvent::RebindFailed => Phase::Rebinding,
            LoopEvent::Started { .. } => Phase::Starting,
            LoopEvent::Ended { .. } => Phase::Serving,
        },
        r is Some ==> final(agent)@.task is Some,
        r is Some ==> (final(agent)@.task->0.phase == match r->0 {
            LoopAction::Dial => Phase::Dialing,
            LoopAction::Rebind { .. } => Phase::Rebinding,
            LoopAction::Serve => Phase::Starting,
            LoopAction::Wait { .. } => Phase::Serving,
            LoopAction::Sleep { .. } => Phase::Top,
            LoopAction::Stop { .. } => Phase::Stopped,
        }),
        r matches Some(LoopAction::Sleep { ms, calls }) ==> ms == old(agent)@.task->0.backoff_ms,
        r is Some && e is Dialed ==> final(agent)@.task->0.backoff_ms == 500,
{
    let v = loop_of(agent@);
    reconnecting::phase_alone_decides_what_can_happen(v, v, e);
    if r is Some {
        reconnecting::step_moves_the_loop_on(v, e);
        reconnecting::waits_double_up_to_the_longest(v, e);
        reconnecting::ordered_action_is_performed(
            r->0,
            reconnecting::loop_step(v, e@).1,
            agent@.inner.event_handlers,
        );
    }
}

/// A forwarder is opened whenever it can be: the agent is open, the bind was not refused, the assigned
/// URL is one, the upstream address can be resolved, and its target is a URL of TCP.
pub proof fn forwarder_is_opened_whenever_it_can_be(
    agent: &mut Agent,
    upstream: Upstream,
    opts: EndpointOptions,
    reply: BindResp,
    channel: ChannelId,
    r: Result<(EndpointForwarder, String), Error>,
    addr: &str,
    to: Result<String, Error>,
)
    requires
        call_ensures(Agent::forward, (agent, upstream, opts, reply, channel), r),
        call_ensures(resolve_upstream_addr, (addr,), to),
        addr@ == upstream.addr@,
        !agent@.inner.closed,
        reply.error@.len() == 0,
        urls::url_parse(reply.url@) is Ok,
        to is Ok,
        urls::url_parse("tcp://"@ + to->Ok_0@) is Ok,
    ensures
        r is Ok,
        r->Ok_0.1@ == to->Ok_0@,
{
}

/// An agent that is built with a token is the one that its builder describes.
pub proof fn built_agent_is_the_one_described(
    b: AgentBuilder,
    facts: HostFacts,
    bundled: &[u8],
    native: &Vec<Vec<u8>>,
    r: Result<Agent, Error>,
)
    requires
        call_ensures(AgentBuilder::build, (b, facts, bundled, native), r),
        r is Ok,
    ensures
        b.authtoken is Some,
        is_built(r->Ok_0, b@, b.authtoken->0@, facts),
{
}

/// A bind request is made from the options, whether their URL was parsed before or is parsed now.
pub proof fn bind_request_is_made_from_the_options(
    opts: &EndpointOptions,
    r: BindReq,
    requested: Option<Url>,
    at: BindReq,
    members: serde_json::Value,
)
    requires
        call_ensures(bind_request, (opts,), r),
        call_ensures(bind_request_at, (opts, requested), at),
        call_ensures(build_bind_opts, (opts,), members),
    ensures
        r@ == bind_view(opts@, requested_url(opts@)),
        requested matches Some(u) ==> at.proto@ == u.scheme@,
        requested is None ==> at.proto@ == "https"@,
        json::members(at.opts) == bind_members(opts@) && json::members(members) == bind_members(
            opts@,
        ),
        json::is_object(at.opts) && json::is_object(members),
        at.client_id@.len() == 0 && at.forwards@.len() == 0,
{
}

} // verus!
