//! FFI-safe types for embedding ngrok in language wrappers.
use vstd::prelude::*;
use std::time::Instant;
use crate::agent::agent;
use crate::agent::agent::{Agent, AgentError, ConnectError, EventCall, Session};
use crate::agent::builder;
use crate::agent::builder::SessionBuilderView;
use crate::agent::events::Event;
use crate::config::{Tunnel, TunnelBuilder};
use crate::endpoint_builder;
use crate::endpoint_builder::{
    EndpointForwardBuilder,
    EndpointForwarder,
    EndpointListenBuilder,
    EndpointListener,
    EndpointOptionsView,
};
use crate::error::NgrokError;
use crate::text::join;
use crate::upstream;
use crate::upstream::{Upstream, UpstreamView};
use crate::urls;
use crate::urls::Url;

verus! {

/// FFI-safe error type that serializes cleanly across any FFI boundary.
#[derive(Debug, Clone)]
pub struct FfiError {
    /// The ngrok error code, if any.
    pub code: Option<String>,
    /// The error message.
    pub message: String,
}

impl FfiError {
    /// The text that describes the error: the code, if there is one, and the message.
    pub open spec fn text(&self) -> Seq<char> {
        match self.code {
            Some(code) => code@ + ": "@ + self.message@,
            None => self.message@,
        }
    }

    /// Describe the error.
    pub fn to_string(&self) -> (r: String)
        ensures
            r@ == self.text(),
    {
        match &self.code {
            Some(code) => {
                let mut r: String = join(code.as_str(), ": ");
                r.append(self.message.as_str());
                r
            },
            None => self.message.clone(),
        }
    }

    /// Whether this is the FFI-safe form of an error: its code and its text.
    pub open spec fn is_form_of(&self, err: NgrokError) -> bool {
        self.code.deep_view() == err.code_text() && self.message@ == err.text()
    }
}

impl From<NgrokError> for FfiError {
    fn from(err: NgrokError) -> (r: FfiError)
        ensures
            r.is_form_of(err),
    {
        FfiError {
            code: match err.code() {
                Some(code) => Some(code.to_owned()),
                None => None,
            },
            message: err.to_string(),
        }
    }
}

impl vstd::std_specs::convert::FromSpecImpl<NgrokError> for FfiError {
    open spec fn obeys_from_spec() -> bool {
        false
    }

    open spec fn from_spec(err: NgrokError) -> FfiError {
        arbitrary()
    }
}

/// Concrete, FFI-safe endpoint options. No generics, all `String` fields.
#[derive(Debug, Clone)]
pub struct FfiEndpointOptions {
    /// The URL for the endpoint.
    pub url: Option<String>,
    /// The traffic policy (YAML or JSON).
    pub traffic_policy: Option<String>,
    /// Opaque metadata.
    pub metadata: Option<String>,
    /// Human-readable description.
    pub description: Option<String>,
    /// Bindings.
    pub bindings: Vec<String>,
    /// Whether pooling is enabled.
    pub pooling_enabled: Option<bool>,
}

impl View for FfiEndpointOptions {
    type V = EndpointOptionsView;

    /// The options of an endpoint builder on which exactly these were set.
    open spec fn view(&self) -> EndpointOptionsView {
        EndpointOptionsView {
            url: self.url.deep_view(),
            traffic_policy: self.traffic_policy.deep_view(),
            metadata: self.metadata.deep_view(),
            description: self.description.deep_view(),
            bindings: self.bindings.deep_view(),
            pooling_enabled: self.pooling_enabled,
            ..endpoint_builder::no_options()
        }
    }
}

impl Default for FfiEndpointOptions {
    fn default() -> (r: FfiEndpointOptions)
        ensures
            r@ == endpoint_builder::no_options(),
    {
        let r = FfiEndpointOptions {
            url: None,
            traffic_policy: None,
            metadata: None,
            description: None,
            bindings: Vec::new(),
            pooling_enabled: None,
        };
        assert(r.bindings.deep_view() =~= Seq::<Seq<char>>::empty());
        r
    }
}

/// Concrete, FFI-safe upstream configuration.
#[derive(Debug, Clone)]
pub struct FfiUpstream {
    /// The upstream address (e.g. "localhost:8080").
    pub addr: String,
    /// The upstream protocol.
    pub protocol: Option<String>,
    /// Whether to verify upstream TLS certificates.
    pub verify_upstream_tls: bool,
}

impl View for FfiUpstream {
    type V = UpstreamView;

    /// The upstream on which exactly these were set.
    open spec fn view(&self) -> UpstreamView {
        UpstreamView {
            protocol: self.protocol.deep_view(),
            verify_upstream_tls: self.verify_upstream_tls,
            ..upstream::upstream_at(self.addr@)
        }
    }
}

impl Default for FfiUpstream {
    fn default() -> (r: FfiUpstream)
        ensures
            r.addr@ == Seq::<char>::empty(),
            r.protocol is None,
            r.verify_upstream_tls,
    {
        FfiUpstream { addr: String::new(), protocol: None, verify_upstream_tls: true }
    }
}

/// Set what was given on a builder for a listener.
fn configure_listen<'a>(builder: EndpointListenBuilder<'a>, opts: &FfiEndpointOptions) -> (r:
    EndpointListenBuilder<'a>)
    requires
        builder.options() == endpoint_builder::no_options(),
    ensures
        r.of() == builder.of(),
        r.options() == opts@,
{
    let mut r = builder;
    if let Some(url) = &opts.url {
        r = r.url(url.as_str());
    }
    if let Some(policy) = &opts.traffic_policy {
        r = r.traffic_policy(policy.as_str());
    }
    if let Some(meta) = &opts.metadata {
        r = r.metadata(meta.as_str());
    }
    if let Some(desc) = &opts.description {
        r = r.description(desc.as_str());
    }
    if opts.bindings.len() > 0 {
        let bindings: Vec<String> = opts.bindings.clone();
        assert(bindings.deep_view() =~= opts.bindings.deep_view());
        r = r.bindings(bindings);
    } else {
        assert(opts.bindings.deep_view() =~= Seq::<Seq<char>>::empty());
    }
    if let Some(enabled) = opts.pooling_enabled {
        r = r.pooling_enabled(enabled);
    }
    r
}

/// Set what was given on a builder for a forwarder.
pub(crate) fn configure_forward<'a>(
    builder: EndpointForwardBuilder<'a>,
    opts: &FfiEndpointOptions,
) -> (r: EndpointForwardBuilder<'a>)
    requires
        builder.options() == endpoint_builder::no_options(),
    ensures
        r.of() == builder.of(),
        r.target() == builder.target(),
        r.options() == opts@,
{
    let mut r = builder;
    if let Some(url) = &opts.url {
        r = r.url(url.as_str());
    }
    if let Some(policy) = &opts.traffic_policy {
        r = r.traffic_policy(policy.as_str());
    }
    if let Some(meta) = &opts.metadata {
        r = r.metadata(meta.as_str());
    }
    if let Some(desc) = &opts.description {
        r = r.description(desc.as_str());
    }
    if opts.bindings.len() > 0 {
        let bindings: Vec<String> = opts.bindings.clone();
        assert(bindings.deep_view() =~= opts.bindings.deep_view());
        r = r.bindings(bindings);
    } else {
        assert(opts.bindings.deep_view() =~= Seq::<Seq<char>>::empty());
    }
    if let Some(enabled) = opts.pooling_enabled {
        r = r.pooling_enabled(enabled);
    }
    r
}

/// FFI-safe Agent wrapper.
pub struct FfiAgent {
    /// The agent.
    pub inner: Agent,
}

/// The agent of a builder on which at most an authtoken was set.
pub open spec fn agent_with(authtoken: Option<Seq<char>>) -> agent::AgentView {
    agent::new_agent(
        builder::default_builder().with_session(
            SessionBuilderView { authtoken, ..builder::plain_session() },
        ),
    )
}

/// Whether `r` is the FFI-safe form of what starting an endpoint with these options came to.
pub open spec fn ffi_starts(r: Result<TunnelBuilder, FfiError>, o: EndpointOptionsView) -> bool {
    match r {
        Ok(b) => endpoint_builder::starts(Ok(b), o),
        Err(e) => exists|n: NgrokError| e.is_form_of(n) && endpoint_builder::starts(Err(n), o),
    }
}

impl FfiAgent {
    /// Create a new FFI agent from an existing Agent.
    pub fn new(agent: Agent) -> (r: FfiAgent)
        ensures
            r.inner == agent,
    {
        FfiAgent { inner: agent }
    }

    /// Create a new FFI agent with the given authtoken.
    pub fn with_authtoken(authtoken: &str) -> (r: Result<FfiAgent, FfiError>)
        ensures
            r is Ok,
            r->Ok_0.inner@ == agent_with(Some(authtoken@)),
    {
        match Agent::builder().authtoken(authtoken).build() {
            Ok(agent) => Ok(FfiAgent::new(agent)),
            Err(e) => Err(FfiError { code: None, message: e.to_string() }),
        }
    }

    /// Create a new FFI agent with the authtoken of the environment, if there is one.
    pub fn from_env(value: Option<String>) -> (r: Result<FfiAgent, FfiError>)
        ensures
            r is Ok,
            r->Ok_0.inner@ == agent_with(value.deep_view()),
    {
        match Agent::builder().authtoken_from_env(value).build() {
            Ok(agent) => Ok(FfiAgent::new(agent)),
            Err(e) => Err(FfiError { code: None, message: e.to_string() }),
        }
    }

    /// Connect to the ngrok service, by what establishing a session came to. Returns the handlers
    /// to call.
    pub fn connect(&mut self, dialed: Result<Session, ConnectError>, timestamp: Instant) -> (r: Result<
        Vec<EventCall>,
        FfiError,
    >)
        ensures
            match (old(self).inner@.session, dialed) {
                (Some(_), _) => r is Err && r->Err_0.code is None && r->Err_0.message@
                    == AgentError::AlreadyConnected.text() && *final(self) == *old(self),
                (None, Err(e)) => r is Err && r->Err_0.code is None && r->Err_0.message@
                    == AgentError::Connect(e).text() && *final(self) == *old(self),
                (None, Ok(session)) => r is Ok && agent::calls_all(
                    r->Ok_0@,
                    old(self).inner@.event_handlers,
                    (Event::AgentConnectSucceeded { timestamp }),
                ) && final(self).inner@ == agent::connected(old(self).inner@, session.id@),
            },
    {
        match self.inner.connect(dialed, timestamp) {
            Ok(calls) => Ok(calls),
            Err(e) => Err(FfiError { code: None, message: e.to_string() }),
        }
    }

    /// The tunnel to open for a listener with the given options.
    pub fn listen_tunnel(&self, opts: &FfiEndpointOptions) -> (r: Result<TunnelBuilder, FfiError>)
        ensures
            if endpoint_builder::can_start(self.inner@) {
                ffi_starts(r, opts@)
            } else {
                r is Err && r->Err_0.is_form_of(NgrokError::NotConnected)
            },
    {
        match configure_listen(EndpointListenBuilder::new(&self.inner), opts).tunnel() {
            Ok(b) => Ok(b),
            Err(e) => Err(FfiError::from(e)),
        }
    }

    /// Listen for incoming connections with the given options, by what opening the tunnel came to.
    pub fn listen(&self, opts: &FfiEndpointOptions, opened: Result<Tunnel, NgrokError>) -> (r: Result<
        FfiEndpointListener,
        FfiError,
    >)
        ensures
            match opened {
                Ok(t) => r is Ok && endpoint_builder::is_listener(r->Ok_0.wrapped(), t, opts@),
                Err(e) => r is Err && r->Err_0.is_form_of(e),
            },
    {
        match configure_listen(EndpointListenBuilder::new(&self.inner), opts).start(opened) {
            Ok(listener) => Ok(FfiEndpointListener::new(listener)),
            Err(e) => Err(FfiError::from(e)),
        }
    }

    /// The tunnel to open for a forwarder to the given upstream, and the URL of the upstream.
    pub fn forward_tunnel(&self, upstream: &FfiUpstream, opts: &FfiEndpointOptions) -> (r: Result<
        (TunnelBuilder, Url),
        FfiError,
    >)
        ensures
            if endpoint_builder::can_start(self.inner@) {
                match urls::url_parse(endpoint_builder::upstream_text(upstream@.addr)) {
                    Err(_) => r is Err && exists|n: NgrokError|
                        r->Err_0.is_form_of(n) && endpoint_builder::is_invalid_url(
                            n,
                            upstream@.addr,
                            endpoint_builder::upstream_reason(upstream@.addr),
                        ),
                    Ok(to) => match r {
                        Ok((b, url)) => url@ == to && ffi_starts(
                            Ok(b),
                            endpoint_builder::forward_options(opts@, upstream@),
                        ),
                        Err(e) => ffi_starts(
                            Err(e),
                            endpoint_builder::forward_options(opts@, upstream@),
                        ),
                    },
                }
            } else {
                r is Err && r->Err_0.is_form_of(NgrokError::NotConnected)
            },
    {
        let builder = EndpointForwardBuilder::new(&self.inner, upstream_of(upstream));
        match configure_forward(builder, opts).tunnel() {
            Ok(b) => Ok(b),
            Err(e) => Err(FfiError::from(e)),
        }
    }

    /// Forward connections to the given upstream with the given options, by what opening the
    /// tunnel came to.
    pub fn forward(
        &self,
        upstream: &FfiUpstream,
        opts: &FfiEndpointOptions,
        opened: Result<Tunnel, NgrokError>,
    ) -> (r: Result<FfiEndpointForwarder, FfiError>)
        ensures
            match opened {
                Ok(t) => r is Ok && endpoint_builder::is_forwarder(
                    r->Ok_0.wrapped(),
                    t,
                    upstream@,
                    opts@,
                ),
                Err(e) => r is Err && r->Err_0.is_form_of(e),
            },
    {
        let builder = EndpointForwardBuilder::new(&self.inner, upstream_of(upstream));
        match configure_forward(builder, opts).start(opened) {
            Ok(forwarder) => Ok(FfiEndpointForwarder::new(forwarder)),
            Err(e) => Err(FfiError::from(e)),
        }
    }

    /// Forward connections to the given address with the given options, by what opening the tunnel
    /// came to.
    pub fn forward_to(
        &self,
        addr: &str,
        opts: &FfiEndpointOptions,
        opened: Result<Tunnel, NgrokError>,
    ) -> (r: Result<FfiEndpointForwarder, FfiError>)
        ensures
            match opened {
                Ok(t) => r is Ok && endpoint_builder::is_forwarder(
                    r->Ok_0.wrapped(),
                    t,
                    upstream::upstream_at(addr@),
                    opts@,
                ),
                Err(e) => r is Err && r->Err_0.is_form_of(e),
            },
    {
        let upstream: FfiUpstream = FfiUpstream { addr: addr.to_owned(), ..FfiUpstream::default() };
        self.forward(&upstream, opts, opened)
    }
}

/// The upstream on which exactly what was given is set.
fn upstream_of(upstream: &FfiUpstream) -> (r: Upstream)
    ensures
        r@ == upstream@,
{
    let mut up: Upstream = Upstream::new(upstream.addr.as_str());
    if let Some(proto) = &upstream.protocol {
        up = up.protocol(proto.as_str());
    }
    up.verify_upstream_tls(upstream.verify_upstream_tls)
}

/// FFI-safe endpoint listener wrapper.
#[derive(Debug)]
pub struct FfiEndpointListener {
    inner: EndpointListener,
}

impl FfiEndpointListener {
    /// The listener.
    pub closed spec fn wrapped(&self) -> EndpointListener {
        self.inner
    }

    /// Wrap a listener.
    pub fn new(inner: EndpointListener) -> (r: FfiEndpointListener)
        ensures
            r.wrapped() == inner,
    {
        FfiEndpointListener { inner }
    }

    /// Returns the endpoint's unique ID.
    pub fn id(&self) -> (r: &str)
        ensures
            r@ == self.wrapped().inner.id@,
    {
        self.inner.inner.id.as_str()
    }

    /// Returns the endpoint's public URL.
    pub fn url(&self) -> (r: &str)
        ensures
            r@ == self.wrapped().inner.url@,
    {
        self.inner.inner.url.as_str()
    }

    /// Returns the endpoint's protocol.
    pub fn protocol(&self) -> (r: &str)
        ensures
            r@ == self.wrapped().inner.proto@,
    {
        self.inner.inner.proto.as_str()
    }

    /// Returns the endpoint's metadata.
    pub fn metadata(&self) -> (r: &str)
        ensures
            r@ == self.wrapped().inner.metadata@,
    {
        self.inner.inner.metadata.as_str()
    }
}

/// FFI-safe endpoint forwarder wrapper.
#[derive(Debug)]
pub struct FfiEndpointForwarder {
    inner: EndpointForwarder,
}

impl FfiEndpointForwarder {
    /// The forwarder.
    pub closed spec fn wrapped(&self) -> EndpointForwarder {
        self.inner
    }

    /// Wrap a forwarder.
    pub fn new(inner: EndpointForwarder) -> (r: FfiEndpointForwarder)
        ensures
            r.wrapped() == inner,
    {
        FfiEndpointForwarder { inner }
    }

    /// Returns the endpoint's unique ID.
    pub fn id(&self) -> (r: &str)
        ensures
            r@ == self.wrapped().inner.id@,
    {
        self.inner.inner.id.as_str()
    }

    /// Returns the endpoint's public URL.
    pub fn url(&self) -> (r: &str)
        ensures
            r@ == self.wrapped().inner.url@,
    {
        self.inner.inner.url.as_str()
    }

    /// Returns the upstream URL.
    pub fn upstream_url(&self) -> (r: &str)
        ensures
            r@ == self.wrapped().upstream_url@,
    {
        self.inner.upstream_url.as_str()
    }
}

/// An error keeps its code and its text in its FFI-safe form, and is described by both, the code in
/// front.
pub proof fn ffi_error_keeps_code_and_text(f: FfiError, err: NgrokError)
    requires
        f.is_form_of(err),
    ensures
        f.message@ == err.text(),
        err matches NgrokError::Api { code, message } ==> (match (f.code, code) {
            (Some(a), Some(b)) => a@ == b@,
            (None, None) => true,
            _ => false,
        }),
        !(err is Api) ==> f.code is None,
        f.code matches Some(code) ==> f.text() == code@ + seq![':', ' '] + err.text(),
        f.code is None ==> f.text() == err.text(),
{
    reveal_strlit(": ");
    assert(": "@ =~= seq![':', ' ']);
}

/// What starting an endpoint came to is handed on: the tunnel as it is, and an error in its FFI-safe
/// form.
pub proof fn ffi_hands_on_what_starting_came_to(
    r: Result<TunnelBuilder, FfiError>,
    o: EndpointOptionsView,
)
    requires
        ffi_starts(r, o),
    ensures
        r matches Ok(b) ==> endpoint_builder::starts(Ok(b), o),
        r matches Err(e) ==> exists|n: NgrokError| #[trigger]
            e.is_form_of(n) && endpoint_builder::starts(Err(n), o),
{
}

/// FFI-safe options are those of an endpoint builder on which exactly these were set.
pub proof fn ffi_options_are_those_given(o: FfiEndpointOptions)
    ensures
        o.url matches Some(t) ==> o@.url == Some(t@),
        o.url is None ==> o@.url is None,
        o.traffic_policy matches Some(t) ==> o@.traffic_policy == Some(t@),
        o.traffic_policy is None ==> o@.traffic_policy is None,
        o.metadata matches Some(t) ==> o@.metadata == Some(t@),
        o.metadata is None ==> o@.metadata is None,
        o.description matches Some(t) ==> o@.description == Some(t@),
        o.description is None ==> o@.description is None,
        o@.bindings.len() == o.bindings@.len(),
        forall|i: int| 0 <= i < o.bindings@.len() ==> #[trigger] o@.bindings[i] == o.bindings@[i]@,
        o@.pooling_enabled == o.pooling_enabled,
        o@.app_protocol is None && o@.verify_upstream_tls is None && o@.forwards_to is None,
{
}

/// An FFI-safe upstream is the one on which exactly these were set.
pub proof fn ffi_upstream_is_the_one_given(u: FfiUpstream)
    ensures
        u@.addr == u.addr@,
        u.protocol matches Some(p) ==> u@.protocol == Some(p@),
        u.protocol is None ==> u@.protocol is None,
        u@.verify_upstream_tls == u.verify_upstream_tls,
        u@.tls_config is None,
        u@.proxy_proto == upstream::ProxyProtoVersion::Off,
{
}

/// An agent with at most a token has that token, connects by itself, is not connected, and has
/// nothing else set and nobody to tell of events.
pub proof fn agent_with_a_token_has_the_defaults(authtoken: Option<Seq<char>>)
    ensures
        ({
            let v = agent_with(authtoken);
            let s = v.session_builder;
            &&& s.authtoken == authtoken
            &&& v.auto_connect
            &&& v.session is None
            &&& v.endpoints.len() == 0 && v.event_handlers.len() == 0
            &&& s.metadata is None && s.server_addr is None && s.ca_cert is None
            &&& s.tls_config is None && s.connector is None && s.proxy_url is None
            &&& s.heartbeat_interval is None && s.heartbeat_tolerance is None
            &&& s.stop_handler is None && s.restart_handler is None && s.update_handler is None
            &&& s.heartbeat_handler is None && s.client_info.len() == 0
        }),
{
}

/// An FFI agent has the token that it was given, or that of the environment, and is not connected.
pub proof fn ffi_agent_has_its_token(
    token: &str,
    r: Result<FfiAgent, FfiError>,
    value: Option<String>,
    from_env: Result<FfiAgent, FfiError>,
)
    requires
        call_ensures(FfiAgent::with_authtoken, (token,), r),
        call_ensures(FfiAgent::from_env, (value,), from_env),
    ensures
        r matches Ok(a) && a.inner@.session_builder.authtoken == Some(token@) && a.inner@.session
            is None && a.inner@.auto_connect,
        from_env matches Ok(a) && a.inner@.session_builder.authtoken == value.deep_view()
            && a.inner@.session is None && a.inner@.auto_connect,
{
}

/// A listener of an FFI agent is opened with every option that was given, if the agent is connected or
/// connects by itself.
pub proof fn ffi_listener_is_opened_with_its_options(
    agent: &FfiAgent,
    opts: &FfiEndpointOptions,
    r: Result<TunnelBuilder, FfiError>,
)
    requires
        call_ensures(FfiAgent::listen_tunnel, (agent, opts), r),
    ensures
        agent.inner@.session is None && !agent.inner@.auto_connect ==> r is Err,
        r matches Ok(t) ==> {
            &&& t@.traffic_policy == opts.traffic_policy.deep_view()
            &&& t@.metadata == opts.metadata.deep_view()
            &&& t.pooling_enabled == opts.pooling_enabled
            &&& opts.bindings@.len() > 0 ==> t@.binding == Some(opts.bindings@[0]@)
            &&& opts.bindings@.len() == 0 ==> t.binding is None
        },
        opts.url is None && (agent.inner@.session is Some || agent.inner@.auto_connect) ==> (
        r matches Ok(t) && t.kind is Http && t.domain is None),
{
    if opts.bindings@.len() > 0 {
        assert(opts@.bindings[0] == opts.bindings@[0]@);
    }
    reveal_strlit("https");
}

/// A forwarder of an FFI agent is opened with every option that was given, verifies its upstream as it
/// was told, and is described by the address of the upstream.
pub proof fn ffi_forwarder_is_opened_to_its_upstream(
    agent: &FfiAgent,
    upstream: &FfiUpstream,
    opts: &FfiEndpointOptions,
    r: Result<(TunnelBuilder, Url), FfiError>,
)
    requires
        call_ensures(FfiAgent::forward_tunnel, (agent, upstream, opts), r),
    ensures
        agent.inner@.session is None && !agent.inner@.auto_connect ==> r is Err,
        r matches Ok((t, url)) ==> {
            &&& t@.traffic_policy == opts.traffic_policy.deep_view()
            &&& t@.metadata == opts.metadata.deep_view()
            &&& t.pooling_enabled == opts.pooling_enabled
            &&& t.verify_upstream_tls == Some(upstream.verify_upstream_tls)
            &&& t@.forwards_to == Some(upstream.addr@)
        },
{
}

/// A handle is on the tunnel that was opened; it names the upstream as it was given.
pub proof fn ffi_handle_is_on_its_tunnel(
    agent: &FfiAgent,
    opts: &FfiEndpointOptions,
    opened: Result<Tunnel, NgrokError>,
    listens: Result<FfiEndpointListener, FfiError>,
    upstream: &FfiUpstream,
    forwards: Result<FfiEndpointForwarder, FfiError>,
)
    requires
        call_ensures(FfiAgent::listen, (agent, opts, opened), listens),
        call_ensures(FfiAgent::forward, (agent, upstream, opts, opened), forwards),
    ensures
        listens is Ok <==> opened is Ok,
        forwards is Ok <==> opened is Ok,
        listens matches Ok(l) ==> l.wrapped().inner == opened->Ok_0,
        listens matches Ok(l) ==> l.wrapped().traffic_policy@ == (match opts.traffic_policy {
            Some(p) => p@,
            None => Seq::empty(),
        }),
        forwards matches Ok(f) ==> f.wrapped().inner == opened->Ok_0 && f.wrapped().upstream_url@
            == upstream.addr@,
        opened matches Err(e) ==> listens->Err_0.message@ == e.text() && forwards->Err_0.message@
            == e.text(),
{
}

/// What an FFI agent starts is what an endpoint builder with the same options starts.
pub proof fn ffi_starts_what_a_builder_starts(
    agent: &FfiAgent,
    opts: &FfiEndpointOptions,
    r: Result<TunnelBuilder, FfiError>,
)
    requires
        call_ensures(FfiAgent::listen_tunnel, (agent, opts), r),
        agent.inner@.session is Some || agent.inner@.auto_connect,
    ensures
        r matches Ok(t) ==> endpoint_builder::starts(Ok(t), opts@),
        r matches Err(e) ==> exists|n: NgrokError| #[trigger]
            e.is_form_of(n) && endpoint_builder::starts(Err(n), opts@),
{
}

/// An FFI agent connects as its agent does: only while it is not connected, to the session that was
/// established.
pub proof fn ffi_agent_connects_once(
    agent: &mut FfiAgent,
    dialed: Result<Session, ConnectError>,
    at: Instant,
    r: Result<Vec<EventCall>, FfiError>,
)
    requires
        call_ensures(FfiAgent::connect, (agent, dialed, at), r),
    ensures
        r is Ok <==> old(agent).inner@.session is None && dialed is Ok,
        r is Err ==> *final(agent) == *old(agent),
        r is Ok ==> final(agent).inner@.session == Some(dialed->Ok_0.id@),
        r matches Ok(calls) ==> calls@.len() == old(agent).inner@.event_handlers.len(),
        dialed matches Err(e) ==> (r matches Err(x) && (old(agent).inner@.session is None
            ==> e.message@.is_suffix_of(x.message@))),
{
}

} // verus!
