//! Configuring and creating an agent.
use vstd::prelude::*;
use crate::agent::agent::Agent;
use crate::agent::events::EventHandler;
use crate::events::HandlerId;
use crate::time::Span;
use crate::urls::{Url, UrlView};

verus! {

/// The type, version and comments by which a client introduces itself.
#[derive(Debug)]
pub struct ClientInfo {
    /// The type of the client.
    pub client_type: String,
    /// The version of the client.
    pub version: String,
    /// Comments, if any.
    pub comments: Option<String>,
}

/// A client's introduction, as mathematical values.
pub struct ClientInfoView {
    /// The type of the client.
    pub client_type: Seq<char>,
    /// The version of the client.
    pub version: Seq<char>,
    /// Comments, if any.
    pub comments: Option<Seq<char>>,
}

impl View for ClientInfo {
    type V = ClientInfoView;

    open spec fn view(&self) -> ClientInfoView {
        ClientInfoView {
            client_type: self.client_type@,
            version: self.version@,
            comments: self.comments.deep_view(),
        }
    }
}

/// How a session is to be established. What is `None` is left to the defaults of the session.
pub struct SessionBuilder {
    /// The authtoken.
    pub authtoken: Option<String>,
    /// Opaque, machine-readable metadata.
    pub metadata: Option<String>,
    /// How often heartbeat messages are sent.
    pub heartbeat_interval: Option<Span>,
    /// How long to wait for a heartbeat response.
    pub heartbeat_tolerance: Option<Span>,
    /// The network address of the service.
    pub server_addr: Option<String>,
    /// The CA certificate for validating TLS connections.
    pub ca_cert: Option<Vec<u8>>,
    /// A custom TLS configuration.
    pub tls_config: Option<rustls::ClientConfig>,
    /// A custom connector.
    pub connector: Option<HandlerId>,
    /// A proxy URL.
    pub proxy_url: Option<Url>,
    /// The handler for the stop command.
    pub stop_handler: Option<HandlerId>,
    /// The handler for the restart command.
    pub restart_handler: Option<HandlerId>,
    /// The handler for the update command.
    pub update_handler: Option<HandlerId>,
    /// The heartbeat handler.
    pub heartbeat_handler: Option<HandlerId>,
    /// The introductions of the clients, in the order in which they were added.
    pub client_info: Vec<ClientInfo>,
}

/// How a session is to be established, as mathematical values.
pub struct SessionBuilderView {
    /// The authtoken.
    pub authtoken: Option<Seq<char>>,
    /// Opaque, machine-readable metadata.
    pub metadata: Option<Seq<char>>,
    /// How often heartbeat messages are sent.
    pub heartbeat_interval: Option<Span>,
    /// How long to wait for a heartbeat response.
    pub heartbeat_tolerance: Option<Span>,
    /// The network address of the service.
    pub server_addr: Option<Seq<char>>,
    /// The CA certificate for validating TLS connections.
    pub ca_cert: Option<Seq<u8>>,
    /// A custom TLS configuration.
    pub tls_config: Option<rustls::ClientConfig>,
    /// A custom connector.
    pub connector: Option<HandlerId>,
    /// A proxy URL.
    pub proxy_url: Option<UrlView>,
    /// The handler for the stop command.
    pub stop_handler: Option<HandlerId>,
    /// The handler for the restart command.
    pub restart_handler: Option<HandlerId>,
    /// The handler for the update command.
    pub update_handler: Option<HandlerId>,
    /// The heartbeat handler.
    pub heartbeat_handler: Option<HandlerId>,
    /// The introductions of the clients.
    pub client_info: Seq<ClientInfoView>,
}

impl View for SessionBuilder {
    type V = SessionBuilderView;

    open spec fn view(&self) -> SessionBuilderView {
        SessionBuilderView {
            authtoken: self.authtoken.deep_view(),
            metadata: self.metadata.deep_view(),
            heartbeat_interval: self.heartbeat_interval,
            heartbeat_tolerance: self.heartbeat_tolerance,
            server_addr: self.server_addr.deep_view(),
            ca_cert: self.ca_cert.deep_view(),
            tls_config: self.tls_config,
            connector: self.connector,
            proxy_url: match self.proxy_url {
                Some(url) => Some(url@),
                None => None,
            },
            stop_handler: self.stop_handler,
            restart_handler: self.restart_handler,
            update_handler: self.update_handler,
            heartbeat_handler: self.heartbeat_handler,
            client_info: self.client_info@.map_values(|i: ClientInfo| i@),
        }
    }
}

/// A session with nothing asked for.
pub open spec fn plain_session() -> SessionBuilderView {
    SessionBuilderView {
        authtoken: None,
        metadata: None,
        heartbeat_interval: None,
        heartbeat_tolerance: None,
        server_addr: None,
        ca_cert: None,
        tls_config: None,
        connector: None,
        proxy_url: None,
        stop_handler: None,
        restart_handler: None,
        update_handler: None,
        heartbeat_handler: None,
        client_info: Seq::empty(),
    }
}

impl Default for SessionBuilder {
    fn default() -> (r: SessionBuilder)
        ensures
            r@ == plain_session(),
    {
        let r = SessionBuilder {
            authtoken: None,
            metadata: None,
            heartbeat_interval: None,
            heartbeat_tolerance: None,
            server_addr: None,
            ca_cert: None,
            tls_config: None,
            connector: None,
            proxy_url: None,
            stop_handler: None,
            restart_handler: None,
            update_handler: None,
            heartbeat_handler: None,
            client_info: Vec::new(),
        };
        assert(r@.client_info =~= Seq::<ClientInfoView>::empty());
        r
    }
}

/// A heartbeat interval that a session cannot have.
#[derive(Debug)]
pub struct InvalidHeartbeatInterval {
    /// The message.
    pub message: String,
}

/// A heartbeat tolerance that a session cannot have.
#[derive(Debug)]
pub struct InvalidHeartbeatTolerance {
    /// The message.
    pub message: String,
}

/// An address that no server can have.
#[derive(Debug)]
pub struct InvalidServerAddr {
    /// The message.
    pub message: String,
}

/// A proxy URL of a kind that is not supported.
#[derive(Debug)]
pub struct ProxyUnsupportedError {
    /// The message.
    pub message: String,
}

/// Errors that can occur when building an agent.
#[derive(Debug)]
pub enum AgentBuildError {
    /// An invalid heartbeat interval was provided.
    InvalidHeartbeatInterval(InvalidHeartbeatInterval),
    /// An invalid heartbeat tolerance was provided.
    InvalidHeartbeatTolerance(InvalidHeartbeatTolerance),
    /// An invalid server address was provided.
    InvalidServerAddr(InvalidServerAddr),
    /// An unsupported proxy URL was provided.
    ProxyUnsupported(ProxyUnsupportedError),
}

impl AgentBuildError {
    /// The text that describes the error: that of its cause.
    pub open spec fn text(&self) -> Seq<char> {
        match self {
            AgentBuildError::InvalidHeartbeatInterval(e) => e.message@,
            AgentBuildError::InvalidHeartbeatTolerance(e) => e.message@,
            AgentBuildError::InvalidServerAddr(e) => e.message@,
            AgentBuildError::ProxyUnsupported(e) => e.message@,
        }
    }

    /// Describe the error.
    pub fn to_string(&self) -> (r: String)
        ensures
            r@ == self.text(),
    {
        match self {
            AgentBuildError::InvalidHeartbeatInterval(e) => e.message.clone(),
            AgentBuildError::InvalidHeartbeatTolerance(e) => e.message.clone(),
            AgentBuildError::InvalidServerAddr(e) => e.message.clone(),
            AgentBuildError::ProxyUnsupported(e) => e.message.clone(),
        }
    }
}

impl From<InvalidHeartbeatInterval> for AgentBuildError {
    fn from(e: InvalidHeartbeatInterval) -> (r: AgentBuildError) {
        AgentBuildError::InvalidHeartbeatInterval(e)
    }
}

impl vstd::std_specs::convert::FromSpecImpl<InvalidHeartbeatInterval> for AgentBuildError {
    open spec fn obeys_from_spec() -> bool {
        true
    }

    open spec fn from_spec(e: InvalidHeartbeatInterval) -> AgentBuildError {
        AgentBuildError::InvalidHeartbeatInterval(e)
    }
}

impl From<InvalidHeartbeatTolerance> for AgentBuildError {
    fn from(e: InvalidHeartbeatTolerance) -> (r: AgentBuildError) {
        AgentBuildError::InvalidHeartbeatTolerance(e)
    }
}

impl vstd::std_specs::convert::FromSpecImpl<InvalidHeartbeatTolerance> for AgentBuildError {
    open spec fn obeys_from_spec() -> bool {
        true
    }

    open spec fn from_spec(e: InvalidHeartbeatTolerance) -> AgentBuildError {
        AgentBuildError::InvalidHeartbeatTolerance(e)
    }
}

impl From<InvalidServerAddr> for AgentBuildError {
    fn from(e: InvalidServerAddr) -> (r: AgentBuildError) {
        AgentBuildError::InvalidServerAddr(e)
    }
}

impl vstd::std_specs::convert::FromSpecImpl<InvalidServerAddr> for AgentBuildError {
    open spec fn obeys_from_spec() -> bool {
        true
    }

    open spec fn from_spec(e: InvalidServerAddr) -> AgentBuildError {
        AgentBuildError::InvalidServerAddr(e)
    }
}

impl From<ProxyUnsupportedError> for AgentBuildError {
    fn from(e: ProxyUnsupportedError) -> (r: AgentBuildError) {
        AgentBuildError::ProxyUnsupported(e)
    }
}

impl vstd::std_specs::convert::FromSpecImpl<ProxyUnsupportedError> for AgentBuildError {
    open spec fn obeys_from_spec() -> bool {
        true
    }

    open spec fn from_spec(e: ProxyUnsupportedError) -> AgentBuildError {
        AgentBuildError::ProxyUnsupported(e)
    }
}

/// A builder for configuring and creating an [`Agent`].
pub struct AgentBuilder {
    session_builder: SessionBuilder,
    auto_connect: bool,
    event_handlers: Vec<EventHandler>,
}

/// An agent builder, as mathematical values.
pub struct AgentBuilderView {
    /// How the session is to be established.
    pub session_builder: SessionBuilderView,
    /// Whether the agent connects when an endpoint is created.
    pub auto_connect: bool,
    /// The event handlers, in the order of their registration.
    pub event_handlers: Seq<HandlerId>,
}

impl View for AgentBuilder {
    type V = AgentBuilderView;

    closed spec fn view(&self) -> AgentBuilderView {
        AgentBuilderView {
            session_builder: self.session_builder@,
            auto_connect: self.auto_connect,
            event_handlers: self.event_handlers@,
        }
    }
}

/// A builder on which nothing was set.
pub open spec fn default_builder() -> AgentBuilderView {
    AgentBuilderView {
        session_builder: plain_session(),
        auto_connect: true,
        event_handlers: Seq::empty(),
    }
}

impl Default for AgentBuilder {
    fn default() -> (r: AgentBuilder)
        ensures
            r@ == default_builder(),
    {
        AgentBuilder {
            session_builder: SessionBuilder::default(),
            auto_connect: true,
            event_handlers: Vec::new(),
        }
    }
}

impl AgentBuilderView {
    /// The builder with another way to establish the session.
    pub open spec fn with_session(self, session_builder: SessionBuilderView) -> AgentBuilderView {
        AgentBuilderView { session_builder, ..self }
    }
}

impl AgentBuilder {
    /// Sets the authtoken for authentication with the ngrok service.
    ///
    /// See <https://ngrok.com/docs/ngrok-agent/config#authtoken>
    pub fn authtoken(self, token: &str) -> (r: Self)
        ensures
            r@ == self@.with_session(
                SessionBuilderView { authtoken: Some(token@), ..self@.session_builder },
            ),
    {
        let session_builder = SessionBuilder {
            authtoken: Some(token.to_owned()),
            ..self.session_builder
        };
        AgentBuilder { session_builder, ..self }
    }

    /// Sets the authtoken from the value of the `NGROK_AUTHTOKEN` environment variable, if it has
    /// one.
    pub fn authtoken_from_env(self, value: Option<String>) -> (r: Self)
        ensures
            r@ == match value {
                Some(token) => self@.with_session(
                    SessionBuilderView { authtoken: Some(token@), ..self@.session_builder },
                ),
                None => self@,
            },
    {
        match value {
            Some(token) => self.authtoken(token.as_str()),
            None => self,
        }
    }

    /// Sets opaque, machine-readable metadata for the agent session.
    ///
    /// See <https://ngrok.com/docs/ngrok-agent/config#metadata>
    pub fn metadata(self, meta: &str) -> (r: Self)
        ensures
            r@ == self@.with_session(
                SessionBuilderView { metadata: Some(meta@), ..self@.session_builder },
            ),
    {
        let session_builder = SessionBuilder {
            metadata: Some(meta.to_owned()),
            ..self.session_builder
        };
        AgentBuilder { session_builder, ..self }
    }

    /// Controls whether the agent will automatically connect when an endpoint
    /// is created via [`Agent::listen`] or [`Agent::forward`].
    ///
    /// Defaults to `true`.
    pub fn auto_connect(self, auto: bool) -> (r: Self)
        ensures
            r@ == (AgentBuilderView { auto_connect: auto, ..self@ }),
    {
        AgentBuilder { auto_connect: auto, ..self }
    }

    /// Sets how often the agent sends heartbeat messages to the ngrok service, once the session
    /// has accepted the interval.
    ///
    /// See <https://ngrok.com/docs/ngrok-agent/config#heartbeat_interval>
    pub fn heartbeat_interval(self, interval: Result<Span, InvalidHeartbeatInterval>) -> (r: Result<
        Self,
        InvalidHeartbeatInterval,
    >)
        ensures
            match interval {
                Ok(d) => r is Ok && r->Ok_0@ == self@.with_session(
                    SessionBuilderView { heartbeat_interval: Some(d), ..self@.session_builder },
                ),
                Err(e) => r is Err && r->Err_0 == e,
            },
    {
        match interval {
            Ok(d) => {
                let session_builder = SessionBuilder {
                    heartbeat_interval: Some(d),
                    ..self.session_builder
                };
                Ok(AgentBuilder { session_builder, ..self })
            },
            Err(e) => Err(e),
        }
    }

    /// Sets how long to wait for a heartbeat response before assuming
    /// the connection is dead, once the session has accepted the tolerance.
    ///
    /// See <https://ngrok.com/docs/ngrok-agent/config#heartbeat_tolerance>
    pub fn heartbeat_tolerance(self, tolerance: Result<Span, InvalidHeartbeatTolerance>) -> (r:
        Result<Self, InvalidHeartbeatTolerance>)
        ensures
            match tolerance {
                Ok(d) => r is Ok && r->Ok_0@ == self@.with_session(
                    SessionBuilderView { heartbeat_tolerance: Some(d), ..self@.session_builder },
                ),
                Err(e) => r is Err && r->Err_0 == e,
            },
    {
        match tolerance {
            Ok(d) => {
                let session_builder = SessionBuilder {
                    heartbeat_tolerance: Some(d),
                    ..self.session_builder
                };
                Ok(AgentBuilder { session_builder, ..self })
            },
            Err(e) => Err(e),
        }
    }

    /// Sets the network address to connect to the ngrok service, once the session has accepted
    /// it.
    ///
    /// See <https://ngrok.com/docs/ngrok-agent/config#server_addr>
    pub fn server_addr(self, addr: Result<String, InvalidServerAddr>) -> (r: Result<
        Self,
        InvalidServerAddr,
    >)
        ensures
            match addr {
                Ok(a) => r is Ok && r->Ok_0@ == self@.with_session(
                    SessionBuilderView { server_addr: Some(a@), ..self@.session_builder },
                ),
                Err(e) => r is Err && r->Err_0 == e,
            },
    {
        match addr {
            Ok(a) => {
                let session_builder = SessionBuilder {
                    server_addr: Some(a),
                    ..self.session_builder
                };
                Ok(AgentBuilder { session_builder, ..self })
            },
            Err(e) => Err(e),
        }
    }

    /// Sets the CA certificate for validating ngrok session TLS connections.
    pub fn ca_cert(self, ca_cert: Vec<u8>) -> (r: Self)
        ensures
            r@ == self@.with_session(
                SessionBuilderView { ca_cert: Some(ca_cert@), ..self@.session_builder },
            ),
    {
        assert(ca_cert.deep_view() =~= ca_cert@);
        let session_builder = SessionBuilder { ca_cert: Some(ca_cert), ..self.session_builder };
        AgentBuilder { session_builder, ..self }
    }

    /// Sets a custom TLS configuration for connecting to the ngrok service.
    pub fn tls_config(self, config: rustls::ClientConfig) -> (r: Self)
        ensures
            r@ == self@.with_session(
                SessionBuilderView { tls_config: Some(config), ..self@.session_builder },
            ),
    {
        let session_builder = SessionBuilder { tls_config: Some(config), ..self.session_builder };
        AgentBuilder { session_builder, ..self }
    }

    /// Sets a custom connector for establishing connections to the ngrok service.
    pub fn connector(self, connect: HandlerId) -> (r: Self)
        ensures
            r@ == self@.with_session(
                SessionBuilderView { connector: Some(connect), ..self@.session_builder },
            ),
    {
        let session_builder = SessionBuilder { connector: Some(connect), ..self.session_builder };
        AgentBuilder { session_builder, ..self }
    }

    /// Sets a proxy URL for connecting to the ngrok service, once the session has accepted it.
    ///
    /// See <https://ngrok.com/docs/ngrok-agent/config#proxy_url>
    pub fn proxy_url(self, url: Result<Url, ProxyUnsupportedError>) -> (r: Result<
        Self,
        ProxyUnsupportedError,
    >)
        ensures
            match url {
                Ok(u) => r is Ok && r->Ok_0@ == self@.with_session(
                    SessionBuilderView { proxy_url: Some(u@), ..self@.session_builder },
                ),
                Err(e) => r is Err && r->Err_0 == e,
            },
    {
        match url {
            Ok(u) => {
                let session_builder = SessionBuilder { proxy_url: Some(u), ..self.session_builder };
                Ok(AgentBuilder { session_builder, ..self })
            },
            Err(e) => Err(e),
        }
    }

    /// Registers an event handler to receive events from the agent.
    ///
    /// Multiple handlers can be registered by calling this method multiple times.
    /// Handlers must not block.
    pub fn event_handler(self, handler: EventHandler) -> (r: Self)
        ensures
            r@ == (AgentBuilderView {
                event_handlers: self@.event_handlers.push(handler),
                ..self@
            }),
    {
        let mut r = self;
        r.event_handlers.push(handler);
        r
    }

    /// Registers a handler for the ngrok stop command.
    pub fn handle_stop_command(self, handler: HandlerId) -> (r: Self)
        ensures
            r@ == self@.with_session(
                SessionBuilderView { stop_handler: Some(handler), ..self@.session_builder },
            ),
    {
        let session_builder = SessionBuilder {
            stop_handler: Some(handler),
            ..self.session_builder
        };
        AgentBuilder { session_builder, ..self }
    }

    /// Registers a handler for the ngrok restart command.
    pub fn handle_restart_command(self, handler: HandlerId) -> (r: Self)
        ensures
            r@ == self@.with_session(
                SessionBuilderView { restart_handler: Some(handler), ..self@.session_builder },
            ),
    {
        let session_builder = SessionBuilder {
            restart_handler: Some(handler),
            ..self.session_builder
        };
        AgentBuilder { session_builder, ..self }
    }

    /// Registers a handler for the ngrok update command.
    pub fn handle_update_command(self, handler: HandlerId) -> (r: Self)
        ensures
            r@ == self@.with_session(
                SessionBuilderView { update_handler: Some(handler), ..self@.session_builder },
            ),
    {
        let session_builder = SessionBuilder {
            update_handler: Some(handler),
            ..self.session_builder
        };
        AgentBuilder { session_builder, ..self }
    }

    /// Registers a heartbeat handler.
    pub fn handle_heartbeat(self, callback: HandlerId) -> (r: Self)
        ensures
            r@ == self@.with_session(
                SessionBuilderView { heartbeat_handler: Some(callback), ..self@.session_builder },
            ),
    {
        let session_builder = SessionBuilder {
            heartbeat_handler: Some(callback),
            ..self.session_builder
        };
        AgentBuilder { session_builder, ..self }
    }

    /// Adds client type and version information.
    pub fn client_info(self, client_type: &str, version: &str, comments: Option<&str>) -> (r: Self)
        ensures
            r@ == self@.with_session(
                SessionBuilderView {
                    client_info: self@.session_builder.client_info.push(
                        ClientInfoView {
                            client_type: client_type@,
                            version: version@,
                            comments: match comments {
                                Some(c) => Some(c@),
                                None => None,
                            },
                        },
                    ),
                    ..self@.session_builder
                },
            ),
    {
        let info = ClientInfo {
            client_type: client_type.to_owned(),
            version: version.to_owned(),
            comments: match comments {
                Some(c) => Some(c.to_owned()),
                None => None,
            },
        };
        let ghost before = self@.session_builder.client_info;
        let mut r = self;
        r.session_builder.client_info.push(info);
        assert(r@.session_builder.client_info =~= before.push(info@));
        r
    }

    /// Builds the [`Agent`].
    ///
    /// This does not connect to the ngrok service. Call [`Agent::connect`]
    /// to establish a session, or set [`AgentBuilder::auto_connect`] to `true`
    /// (the default) to connect automatically when creating an endpoint.
    pub fn build(self) -> (r: Result<Agent, AgentBuildError>)
        ensures
            r is Ok,
            r->Ok_0@ == super::agent::new_agent(self@),
    {
        let agent = Agent {
            session_builder: self.session_builder,
            session: None,
            auto_connect: self.auto_connect,
            event_handlers: self.event_handlers,
            endpoints: Vec::new(),
        };
        assert(agent@.endpoints =~= Seq::empty());
        Ok(agent)
    }
}

/// A builder on which nothing was set connects by itself, has nobody to tell of events, and asks for
/// nothing of its session.
pub proof fn default_builder_asks_for_nothing(s: SessionBuilder)
    requires
        s@ == default_builder().session_builder,
    ensures
        default_builder().auto_connect,
        default_builder().event_handlers.len() == 0,
        s.authtoken is None && s.metadata is None && s.server_addr is None && s.ca_cert is None,
        s.heartbeat_interval is None && s.heartbeat_tolerance is None && s.tls_config is None,
        s.connector is None && s.proxy_url is None && s.heartbeat_handler is None,
        s.stop_handler is None && s.restart_handler is None && s.update_handler is None,
        s.client_info@.len() == 0,
{
    assert(s@.client_info.len() == s.client_info@.len());
}

/// Changing how the session is established changes nothing else of a builder.
pub proof fn session_is_set_alone(b: AgentBuilderView, s: SessionBuilderView)
    ensures
        b.with_session(s).session_builder == s,
        b.with_session(s).auto_connect == b.auto_connect,
        b.with_session(s).event_handlers == b.event_handlers,
{
}

/// An error of building an agent is described as its cause is.
pub proof fn build_error_is_described_as_its_cause(e: AgentBuildError)
    ensures
        match e {
            AgentBuildError::InvalidHeartbeatInterval(c) => e.text() == c.message@,
            AgentBuildError::InvalidHeartbeatTolerance(c) => e.text() == c.message@,
            AgentBuildError::InvalidServerAddr(c) => e.text() == c.message@,
            AgentBuildError::ProxyUnsupported(c) => e.text() == c.message@,
        },
{
}

/// How a session is to be established is what was set, one by one.
pub proof fn session_builder_is_what_was_set(s: SessionBuilder)
    ensures
        s.authtoken matches Some(t) ==> s@.authtoken == Some(t@),
        s.authtoken is None ==> s@.authtoken is None,
        s.metadata matches Some(t) ==> s@.metadata == Some(t@),
        s.metadata is None ==> s@.metadata is None,
        s.server_addr matches Some(t) ==> s@.server_addr == Some(t@),
        s.server_addr is None ==> s@.server_addr is None,
        s.ca_cert matches Some(c) ==> s@.ca_cert == Some(c@),
        s.ca_cert is None ==> s@.ca_cert is None,
        s.proxy_url matches Some(u) ==> s@.proxy_url == Some(u@),
        s.proxy_url is None ==> s@.proxy_url is None,
        s@.heartbeat_interval == s.heartbeat_interval,
        s@.heartbeat_tolerance == s.heartbeat_tolerance,
        s@.tls_config == s.tls_config && s@.connector == s.connector,
        s@.stop_handler == s.stop_handler && s@.restart_handler == s.restart_handler,
        s@.update_handler == s.update_handler && s@.heartbeat_handler == s.heartbeat_handler,
        s@.client_info.len() == s.client_info@.len(),
        forall|i: int|
            0 <= i < s.client_info@.len() ==> (#[trigger] s@.client_info[i]).client_type
                == s.client_info@[i].client_type@ && s@.client_info[i].version
                == s.client_info@[i].version@,
{
    if let Some(c) = s.ca_cert {
        assert(c.deep_view() =~= c@);
    }
}

/// Setting something on a builder sets that, and nothing else.
pub proof fn agent_builder_sets_one_thing(
    b: AgentBuilder,
    text: &str,
    with_token: AgentBuilder,
    with_metadata: AgentBuilder,
    on: bool,
    with_auto: AgentBuilder,
    handler: HandlerId,
    with_event: AgentBuilder,
    r: Result<Agent, AgentBuildError>,
)
    requires
        call_ensures(AgentBuilder::authtoken, (b, text), with_token),
        call_ensures(AgentBuilder::metadata, (b, text), with_metadata),
        call_ensures(AgentBuilder::auto_connect, (b, on), with_auto),
        call_ensures(AgentBuilder::event_handler, (b, handler), with_event),
        call_ensures(AgentBuilder::build, (b,), r),
    ensures
        with_token@.session_builder == (SessionBuilderView {
            authtoken: Some(text@),
            ..b@.session_builder
        }),
        with_token@.auto_connect == b@.auto_connect,
        with_token@.event_handlers == b@.event_handlers,
        with_metadata@.session_builder == (SessionBuilderView {
            metadata: Some(text@),
            ..b@.session_builder
        }),
        with_metadata@.auto_connect == b@.auto_connect,
        with_metadata@.event_handlers == b@.event_handlers,
        with_auto@.auto_connect == on,
        with_auto@.session_builder == b@.session_builder,
        with_event@.event_handlers == b@.event_handlers.push(handler),
        with_event@.session_builder == b@.session_builder,
        with_event@.auto_connect == b@.auto_connect,
        r matches Ok(a) && a.session is None && a@.session_builder == b@.session_builder
            && a.auto_connect == b@.auto_connect && a@.event_handlers == b@.event_handlers
            && a@.endpoints.len() == 0,
{
}

/// What a session accepted is set on it, and nothing else; what it refused is the error.
pub proof fn session_takes_what_it_accepted(
    b: AgentBuilder,
    interval: Result<Span, InvalidHeartbeatInterval>,
    with_interval: Result<AgentBuilder, InvalidHeartbeatInterval>,
    tolerance: Result<Span, InvalidHeartbeatTolerance>,
    with_tolerance: Result<AgentBuilder, InvalidHeartbeatTolerance>,
    addr: Result<String, InvalidServerAddr>,
    with_addr: Result<AgentBuilder, InvalidServerAddr>,
    url: Result<Url, ProxyUnsupportedError>,
    with_proxy: Result<AgentBuilder, ProxyUnsupportedError>,
)
    requires
        call_ensures(AgentBuilder::heartbeat_interval, (b, interval), with_interval),
        call_ensures(AgentBuilder::heartbeat_tolerance, (b, tolerance), with_tolerance),
        call_ensures(AgentBuilder::server_addr, (b, addr), with_addr),
        call_ensures(AgentBuilder::proxy_url, (b, url), with_proxy),
    ensures
        match interval {
            Ok(d) => with_interval matches Ok(x) && x@.session_builder == (SessionBuilderView {
                heartbeat_interval: Some(d),
                ..b@.session_builder
            }),
            Err(e) => with_interval matches Err(x) && x == e,
        },
        match tolerance {
            Ok(d) => with_tolerance matches Ok(x) && x@.session_builder == (SessionBuilderView {
                heartbeat_tolerance: Some(d),
                ..b@.session_builder
            }),
            Err(e) => with_tolerance matches Err(x) && x == e,
        },
        match addr {
            Ok(a) => with_addr matches Ok(x) && x@.session_builder == (SessionBuilderView {
                server_addr: Some(a@),
                ..b@.session_builder
            }),
            Err(e) => with_addr matches Err(x) && x == e,
        },
        match url {
            Ok(u) => with_proxy matches Ok(x) && x@.session_builder == (SessionBuilderView {
                proxy_url: Some(u@),
                ..b@.session_builder
            }),
            Err(e) => with_proxy matches Err(x) && x == e,
        },
{
}

/// Trust, the connector and the handlers of commands are set one at a time, and nothing else with
/// them.
pub proof fn session_takes_trust_and_handlers(
    b: AgentBuilder,
    ca: Vec<u8>,
    with_ca: AgentBuilder,
    cfg: rustls::ClientConfig,
    with_tls: AgentBuilder,
    handler: HandlerId,
    with_connector: AgentBuilder,
    with_stop: AgentBuilder,
    with_restart: AgentBuilder,
    with_update: AgentBuilder,
    with_heartbeat: AgentBuilder,
)
    requires
        call_ensures(AgentBuilder::ca_cert, (b, ca), with_ca),
        call_ensures(AgentBuilder::tls_config, (b, cfg), with_tls),
        call_ensures(AgentBuilder::connector, (b, handler), with_connector),
        call_ensures(AgentBuilder::handle_stop_command, (b, handler), with_stop),
        call_ensures(AgentBuilder::handle_restart_command, (b, handler), with_restart),
        call_ensures(AgentBuilder::handle_update_command, (b, handler), with_update),
        call_ensures(AgentBuilder::handle_heartbeat, (b, handler), with_heartbeat),
    ensures
        with_ca@.session_builder == (SessionBuilderView {
            ca_cert: Some(ca@),
            ..b@.session_builder
        }),
        with_tls@.session_builder == (SessionBuilderView {
            tls_config: Some(cfg),
            ..b@.session_builder
        }),
        with_connector@.session_builder == (SessionBuilderView {
            connector: Some(handler),
            ..b@.session_builder
        }),
        with_stop@.session_builder == (SessionBuilderView {
            stop_handler: Some(handler),
            ..b@.session_builder
        }),
        with_restart@.session_builder == (SessionBuilderView {
            restart_handler: Some(handler),
            ..b@.session_builder
        }),
        with_update@.session_builder == (SessionBuilderView {
            update_handler: Some(handler),
            ..b@.session_builder
        }),
        with_heartbeat@.session_builder == (SessionBuilderView {
            heartbeat_handler: Some(handler),
            ..b@.session_builder
        }),
{
}

} // verus!
