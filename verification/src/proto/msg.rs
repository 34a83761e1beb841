//! The ngrok wire protocol messages.
use vstd::prelude::*;
use crate::json;
use crate::json::Json;

verus! {

/// Authentication request sent to ngrok cloud.
#[derive(Debug, Clone)]
pub struct Auth {
    /// Supported protocol versions.
    pub version: Vec<String>,
    /// The client ID (empty for new sessions).
    pub client_id: String,
    /// Additional authentication metadata.
    pub extra: AuthExtra,
}

/// Extra fields in the Auth message.
#[derive(Debug)]
pub struct AuthExtra {
    /// The operating system.
    pub os: String,
    /// The CPU architecture.
    pub arch: String,
    /// The ngrok authtoken.
    pub authtoken: String,
    /// The agent version.
    pub version: String,
    /// The hostname of the agent machine.
    pub hostname: String,
    /// The user agent string.
    pub user_agent: String,
    /// User-defined metadata.
    pub metadata: String,
    /// A session cookie for reconnection.
    pub cookie: String,
    /// Heartbeat interval in milliseconds.
    pub heartbeat_interval_ms: i64,
    /// Heartbeat tolerance in milliseconds.
    pub heartbeat_tolerance_ms: i64,
    /// Error if StopAgent is unsupported.
    pub stop_unsupported_error: Option<String>,
    /// Error if RestartAgent is unsupported.
    pub restart_unsupported_error: Option<String>,
    /// Error if UpdateAgent is unsupported.
    pub update_unsupported_error: Option<String>,
}

/// The extra fields of an Auth message, as mathematical values.
pub struct AuthExtraView {
    /// The operating system.
    pub os: Seq<char>,
    /// The CPU architecture.
    pub arch: Seq<char>,
    /// The ngrok authtoken.
    pub authtoken: Seq<char>,
    /// The agent version.
    pub version: Seq<char>,
    /// The hostname of the agent machine.
    pub hostname: Seq<char>,
    /// The user agent string.
    pub user_agent: Seq<char>,
    /// User-defined metadata.
    pub metadata: Seq<char>,
    /// A session cookie for reconnection.
    pub cookie: Seq<char>,
    /// Heartbeat interval in milliseconds.
    pub heartbeat_interval_ms: i64,
    /// Heartbeat tolerance in milliseconds.
    pub heartbeat_tolerance_ms: i64,
    /// Error if StopAgent is unsupported.
    pub stop_unsupported_error: Option<Seq<char>>,
    /// Error if RestartAgent is unsupported.
    pub restart_unsupported_error: Option<Seq<char>>,
    /// Error if UpdateAgent is unsupported.
    pub update_unsupported_error: Option<Seq<char>>,
}

impl View for AuthExtra {
    type V = AuthExtraView;

    open spec fn view(&self) -> AuthExtraView {
        AuthExtraView {
            os: self.os@,
            arch: self.arch@,
            authtoken: self.authtoken@,
            version: self.version@,
            hostname: self.hostname@,
            user_agent: self.user_agent@,
            metadata: self.metadata@,
            cookie: self.cookie@,
            heartbeat_interval_ms: self.heartbeat_interval_ms,
            heartbeat_tolerance_ms: self.heartbeat_tolerance_ms,
            stop_unsupported_error: self.stop_unsupported_error.deep_view(),
            restart_unsupported_error: self.restart_unsupported_error.deep_view(),
            update_unsupported_error: self.update_unsupported_error.deep_view(),
        }
    }
}

/// Extra fields that are all empty.
pub open spec fn empty_auth_extra() -> AuthExtraView {
    AuthExtraView {
        os: Seq::empty(),
        arch: Seq::empty(),
        authtoken: Seq::empty(),
        version: Seq::empty(),
        hostname: Seq::empty(),
        user_agent: Seq::empty(),
        metadata: Seq::empty(),
        cookie: Seq::empty(),
        heartbeat_interval_ms: 0,
        heartbeat_tolerance_ms: 0,
        stop_unsupported_error: None,
        restart_unsupported_error: None,
        update_unsupported_error: None,
    }
}

impl Default for AuthExtra {
    fn default() -> (r: AuthExtra)
        ensures
            r@ == empty_auth_extra(),
    {
        AuthExtra {
            os: String::new(),
            arch: String::new(),
            authtoken: String::new(),
            version: String::new(),
            hostname: String::new(),
            user_agent: String::new(),
            metadata: String::new(),
            cookie: String::new(),
            heartbeat_interval_ms: 0,
            heartbeat_tolerance_ms: 0,
            stop_unsupported_error: None,
            restart_unsupported_error: None,
            update_unsupported_error: None,
        }
    }
}

impl Clone for AuthExtra {
    fn clone(&self) -> (r: AuthExtra)
        ensures
            r@ == self@,
    {
        AuthExtra {
            os: self.os.clone(),
            arch: self.arch.clone(),
            authtoken: self.authtoken.clone(),
            version: self.version.clone(),
            hostname: self.hostname.clone(),
            user_agent: self.user_agent.clone(),
            metadata: self.metadata.clone(),
            cookie: self.cookie.clone(),
            heartbeat_interval_ms: self.heartbeat_interval_ms,
            heartbeat_tolerance_ms: self.heartbeat_tolerance_ms,
            stop_unsupported_error: self.stop_unsupported_error.clone(),
            restart_unsupported_error: self.restart_unsupported_error.clone(),
            update_unsupported_error: self.update_unsupported_error.clone(),
        }
    }
}

impl Default for Auth {
    fn default() -> (r: Auth)
        ensures
            r.version@ == Seq::<String>::empty(),
            r.client_id@ == Seq::<char>::empty(),
            r.extra@ == empty_auth_extra(),
    {
        Auth { version: Vec::new(), client_id: String::new(), extra: AuthExtra::default() }
    }
}

/// Authentication response from ngrok cloud.
#[derive(Debug, Clone)]
pub struct AuthResp {
    /// The protocol version negotiated.
    pub version: String,
    /// The server-assigned client ID.
    pub client_id: String,
    /// Extra metadata from the server.
    pub extra: AuthRespExtra,
    /// Error message, if any. Empty string indicates success.
    pub error: String,
}

impl Default for AuthResp {
    fn default() -> (r: AuthResp)
        ensures
            r.version@ == Seq::<char>::empty(),
            r.client_id@ == Seq::<char>::empty(),
            r.extra.is_empty(),
            r.error@ == Seq::<char>::empty(),
    {
        AuthResp {
            version: String::new(),
            client_id: String::new(),
            extra: AuthRespExtra::default(),
            error: String::new(),
        }
    }
}

/// Extra fields in the AuthResp message.
#[derive(Debug, Clone)]
pub struct AuthRespExtra {
    /// The ngrok region.
    pub region: String,
    /// The server-assigned agent session ID.
    pub agent_session_id: String,
    /// A cookie for session resumption.
    pub cookie: String,
    /// Alternative connect addresses.
    pub connect_addresses: Vec<ConnectAddress>,
}

impl AuthRespExtra {
    /// Whether every field is empty.
    pub open spec fn is_empty(&self) -> bool {
        &&& self.region@.len() == 0
        &&& self.agent_session_id@.len() == 0
        &&& self.cookie@.len() == 0
        &&& self.connect_addresses@.len() == 0
    }
}

impl Default for AuthRespExtra {
    fn default() -> (r: AuthRespExtra)
        ensures
            r.is_empty(),
    {
        AuthRespExtra {
            region: String::new(),
            agent_session_id: String::new(),
            cookie: String::new(),
            connect_addresses: Vec::new(),
        }
    }
}

/// A connect address entry returned by ngrok cloud.
#[derive(Debug, Clone)]
pub struct ConnectAddress {
    /// The region identifier.
    pub region: String,
    /// The server address (host:port).
    pub server_addr: String,
}

impl Default for ConnectAddress {
    fn default() -> (r: ConnectAddress)
        ensures
            r.region@ == Seq::<char>::empty(),
            r.server_addr@ == Seq::<char>::empty(),
    {
        ConnectAddress { region: String::new(), server_addr: String::new() }
    }
}

/// Tunnel bind request.
#[derive(Debug)]
pub struct BindReq {
    /// The client ID.
    pub client_id: String,
    /// The protocol (e.g., "https", "tcp").
    pub proto: String,
    /// Protocol-specific options as a JSON object.
    pub opts: serde_json::Value,
    /// The upstream forwarding address.
    pub forwards: String,
}

/// A bind request, as mathematical values.
pub struct BindReqView {
    /// The client ID.
    pub client_id: Seq<char>,
    /// The protocol.
    pub proto: Seq<char>,
    /// Whether the options are a JSON object.
    pub has_opts: bool,
    /// The members of the options.
    pub opts: Map<Seq<char>, Json>,
    /// The upstream forwarding address.
    pub forwards: Seq<char>,
}

impl View for BindReq {
    type V = BindReqView;

    open spec fn view(&self) -> BindReqView {
        BindReqView {
            client_id: self.client_id@,
            proto: self.proto@,
            has_opts: json::is_object(self.opts),
            opts: json::members(self.opts),
            forwards: self.forwards@,
        }
    }
}

impl Clone for BindReq {
    fn clone(&self) -> (r: BindReq)
        ensures
            r@ == self@,
    {
        BindReq {
            client_id: self.client_id.clone(),
            proto: self.proto.clone(),
            opts: self.opts.clone(),
            forwards: self.forwards.clone(),
        }
    }
}

/// Tunnel bind response.
#[derive(Debug, Clone)]
pub struct BindResp {
    /// The endpoint ID.
    pub client_id: String,
    /// The public URL assigned to this endpoint.
    pub url: String,
    /// The protocol.
    pub proto: String,
    /// Error message, if any. Empty string indicates success.
    pub error: String,
}

impl Default for BindResp {
    fn default() -> (r: BindResp)
        ensures
            r.client_id@ == Seq::<char>::empty(),
            r.url@ == Seq::<char>::empty(),
            r.proto@ == Seq::<char>::empty(),
            r.error@ == Seq::<char>::empty(),
    {
        BindResp {
            client_id: String::new(),
            url: String::new(),
            proto: String::new(),
            error: String::new(),
        }
    }
}

/// Proxy connection header sent before each proxied connection.
#[derive(Debug, Clone)]
pub struct ProxyHeader {
    /// The endpoint ID.
    pub id: String,
    /// The client's IP address as reported by ngrok cloud.
    pub client_addr: String,
    /// The protocol.
    pub proto: String,
    /// The edge type.
    pub edge_type: String,
    /// Whether this connection uses TLS passthrough.
    pub passthrough_tls: bool,
}

impl Default for ProxyHeader {
    fn default() -> (r: ProxyHeader)
        ensures
            r.id@ == Seq::<char>::empty(),
            r.client_addr@ == Seq::<char>::empty(),
            r.proto@ == Seq::<char>::empty(),
            r.edge_type@ == Seq::<char>::empty(),
            !r.passthrough_tls,
    {
        ProxyHeader {
            id: String::new(),
            client_addr: String::new(),
            proto: String::new(),
            edge_type: String::new(),
            passthrough_tls: false,
        }
    }
}

/// Server-initiated stop tunnel message.
#[derive(Debug, Clone)]
pub struct StopTunnel {
    /// The endpoint ID to stop.
    pub id: String,
    /// A human-readable message.
    pub message: String,
    /// The error code, if any.
    pub error_code: String,
}

impl Default for StopTunnel {
    fn default() -> (r: StopTunnel)
        ensures
            r.id@ == Seq::<char>::empty(),
            r.message@ == Seq::<char>::empty(),
            r.error_code@ == Seq::<char>::empty(),
    {
        StopTunnel { id: String::new(), message: String::new(), error_code: String::new() }
    }
}

/// Server information response.
#[derive(Debug, Clone)]
pub struct SrvInfoResp {
    /// The ngrok region.
    pub region: String,
}

impl Default for SrvInfoResp {
    fn default() -> (r: SrvInfoResp)
        ensures
            r.region@ == Seq::<char>::empty(),
    {
        SrvInfoResp { region: String::new() }
    }
}

/// What is sent with an authentication is what its fields hold, one by one.
pub proof fn auth_extra_is_what_its_fields_hold(e: AuthExtra)
    ensures
        e@.os == e.os@ && e@.arch == e.arch@ && e@.authtoken == e.authtoken@,
        e@.version == e.version@ && e@.hostname == e.hostname@ && e@.user_agent == e.user_agent@,
        e@.metadata == e.metadata@ && e@.cookie == e.cookie@,
        e@.heartbeat_interval_ms == e.heartbeat_interval_ms,
        e@.heartbeat_tolerance_ms == e.heartbeat_tolerance_ms,
        e@.stop_unsupported_error is None == e.stop_unsupported_error is None,
        e@.restart_unsupported_error is None == e.restart_unsupported_error is None,
        e@.update_unsupported_error is None == e.update_unsupported_error is None,
{
}

/// A bind request is what its fields hold, one by one.
pub proof fn bind_request_is_what_its_fields_hold(r: BindReq)
    ensures
        r@.client_id == r.client_id@ && r@.proto == r.proto@ && r@.forwards == r.forwards@,
        r@.has_opts == json::is_object(r.opts) && r@.opts == json::members(r.opts),
{
}

/// An empty answer to an authentication names no region, no session, no cookie and no address.
pub proof fn empty_answer_names_nothing(e: AuthRespExtra)
    requires
        e.is_empty(),
    ensures
        e.region@ == Seq::<char>::empty() && e.agent_session_id@ == Seq::<char>::empty(),
        e.cookie@ == Seq::<char>::empty() && e.connect_addresses@.len() == 0,
{
}

} // verus!
