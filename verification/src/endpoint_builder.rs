//! Builders that start endpoints step by step.
use vstd::prelude::*;
use crate::agent::agent;
use crate::agent::agent::{host_port_of, Agent};
use crate::config;
use crate::config::{
    set_first,
    set_switch,
    set_text,
    Tunnel,
    TunnelBuilder,
    TunnelBuilderView,
    TunnelKind,
};
use crate::error::NgrokError;
use crate::text;
use crate::text::{contains_text, join, join_host_port, parse_port, same_text, text_or_empty};
use crate::upstream::{Upstream, UpstreamView};
use crate::urls;
use crate::urls::{ParseError, Url, UrlView};

verus! {

/// Options for configuring an endpoint.
#[derive(Debug)]
pub struct EndpointOptions {
    /// The URL for the endpoint.
    pub url: Option<String>,
    /// The traffic policy.
    pub traffic_policy: Option<String>,
    /// Opaque metadata.
    pub metadata: Option<String>,
    /// Human-readable description.
    pub description: Option<String>,
    /// Bindings.
    pub bindings: Vec<String>,
    /// Whether pooling is enabled.
    pub pooling_enabled: Option<bool>,
    /// The application protocol.
    pub app_protocol: Option<String>,
    /// Whether to verify the TLS certificates of the upstream.
    pub verify_upstream_tls: Option<bool>,
    /// The forwarding target description.
    pub forwards_to: Option<String>,
}

/// Endpoint options, as mathematical values.
pub struct EndpointOptionsView {
    /// The URL for the endpoint.
    pub url: Option<Seq<char>>,
    /// The traffic policy.
    pub traffic_policy: Option<Seq<char>>,
    /// Opaque metadata.
    pub metadata: Option<Seq<char>>,
    /// Human-readable description.
    pub description: Option<Seq<char>>,
    /// Bindings.
    pub bindings: Seq<Seq<char>>,
    /// Whether pooling is enabled.
    pub pooling_enabled: Option<bool>,
    /// The application protocol.
    pub app_protocol: Option<Seq<char>>,
    /// Whether to verify the TLS certificates of the upstream.
    pub verify_upstream_tls: Option<bool>,
    /// The forwarding target description.
    pub forwards_to: Option<Seq<char>>,
}

impl View for EndpointOptions {
    type V = EndpointOptionsView;

    open spec fn view(&self) -> EndpointOptionsView {
        EndpointOptionsView {
            url: self.url.deep_view(),
            traffic_policy: self.traffic_policy.deep_view(),
            metadata: self.metadata.deep_view(),
            description: self.description.deep_view(),
            bindings: self.bindings.deep_view(),
            pooling_enabled: self.pooling_enabled,
            app_protocol: self.app_protocol.deep_view(),
            verify_upstream_tls: self.verify_upstream_tls,
            forwards_to: self.forwards_to.deep_view(),
        }
    }
}

/// Options of which none is set.
pub open spec fn no_options() -> EndpointOptionsView {
    EndpointOptionsView {
        url: None,
        traffic_policy: None,
        metadata: None,
        description: None,
        bindings: Seq::empty(),
        pooling_enabled: None,
        app_protocol: None,
        verify_upstream_tls: None,
        forwards_to: None,
    }
}

impl Default for EndpointOptions {
    fn default() -> (r: EndpointOptions)
        ensures
            r@ == no_options(),
    {
        let r = EndpointOptions {
            url: None,
            traffic_policy: None,
            metadata: None,
            description: None,
            bindings: Vec::new(),
            pooling_enabled: None,
            app_protocol: None,
            verify_upstream_tls: None,
            forwards_to: None,
        };
        assert(r.bindings.deep_view() =~= Seq::<Seq<char>>::empty());
        r
    }
}

/// The parts of an endpoint URL.
#[derive(Debug)]
pub struct EndpointUrl {
    /// The scheme.
    pub scheme: String,
    /// The domain, unless the scheme is `tcp`.
    pub domain: Option<String>,
    /// The remote address, if the scheme is `tcp`.
    pub addr: Option<String>,
}

/// The parts of an endpoint URL, as mathematical values.
pub struct EndpointUrlView {
    /// The scheme.
    pub scheme: Seq<char>,
    /// The domain, unless the scheme is `tcp`.
    pub domain: Option<Seq<char>>,
    /// The remote address, if the scheme is `tcp`.
    pub addr: Option<Seq<char>>,
}

impl View for EndpointUrl {
    type V = EndpointUrlView;

    open spec fn view(&self) -> EndpointUrlView {
        EndpointUrlView {
            scheme: self.scheme@,
            domain: self.domain.deep_view(),
            addr: self.addr.deep_view(),
        }
    }
}

/// An endpoint URL with its scheme: a domain name without one is taken as `https`.
pub open spec fn effective_url(url: Seq<char>) -> Seq<char> {
    if text::occurs_in("://"@, url) {
        url
    } else {
        "https://"@ + url
    }
}

/// The parts of a parsed endpoint URL: the host and port are the remote address of a TCP endpoint
/// and the domain of any other.
pub open spec fn url_parts(u: UrlView) -> EndpointUrlView {
    if u.scheme == "tcp"@ {
        EndpointUrlView { scheme: u.scheme, domain: None, addr: agent::host_port(u) }
    } else {
        EndpointUrlView { scheme: u.scheme, domain: agent::host_port(u), addr: None }
    }
}

/// The parts of an endpoint URL, if there is one, or `None` if it is no URL.
pub open spec fn endpoint_url(url: Option<Seq<char>>) -> Option<EndpointUrlView> {
    match url {
        None => Some(EndpointUrlView { scheme: "https"@, domain: None, addr: None }),
        Some(text) => match urls::url_parse(effective_url(text)) {
            Ok(u) => Some(url_parts(u)),
            Err(_) => None,
        },
    }
}

/// Whether the error is that of the URL `url`, for the given reason.
pub open spec fn is_invalid_url(e: NgrokError, url: Seq<char>, reason: Seq<char>) -> bool {
    e matches NgrokError::InvalidUrl { url: u, reason: r } && u@ == url && r@ == reason
}

/// The error of a URL.
fn invalid_url(url: &str, reason: &str) -> (r: NgrokError)
    ensures
        is_invalid_url(r, url@, reason@),
{
    NgrokError::InvalidUrl { url: url.to_owned(), reason: reason.to_owned() }
}

/// Parse an endpoint URL into its scheme, domain and address.
pub fn parse_endpoint_url(url: Option<&str>) -> (r: Result<EndpointUrl, NgrokError>)
    ensures
        match url {
            None => r is Ok && Some(r->Ok_0@) == endpoint_url(None),
            Some(text) => match endpoint_url(Some(text@)) {
                Some(parts) => r is Ok && r->Ok_0@ == parts,
                None => r is Err && is_invalid_url(r->Err_0, text@, "failed to parse URL"@),
            },
        },
{
    match url {
        None => Ok(EndpointUrl { scheme: "https".to_owned(), domain: None, addr: None }),
        Some(text) => {
            let effective: String = if !contains_text(text, "://") {
                join("https://", text)
            } else {
                text.to_owned()
            };
            parts_of(text, Url::parse(effective.as_str()))
        },
    }
}

/// The parts of an endpoint URL that was parsed.
pub fn parts_of(url: &str, parsed: Result<Url, ParseError>) -> (r: Result<EndpointUrl, NgrokError>)
    ensures
        match parsed {
            Ok(u) => r is Ok && r->Ok_0@ == url_parts(u@),
            Err(_) => r is Err && is_invalid_url(r->Err_0, url@, "failed to parse URL"@),
        },
{
    match parsed {
        Ok(u) => {
            let host: Option<String> = host_port_of(&u);
            if same_text(u.scheme(), "tcp") {
                Ok(EndpointUrl { scheme: u.scheme, domain: None, addr: host })
            } else {
                Ok(EndpointUrl { scheme: u.scheme, domain: host, addr: None })
            }
        },
        Err(_) => Err(invalid_url(url, "failed to parse URL")),
    }
}

/// The tunnel after the options that all kinds have were applied. Of several bindings only the
/// first is used.
pub open spec fn with_options(b: TunnelBuilderView, o: EndpointOptionsView) -> TunnelBuilderView {
    TunnelBuilderView {
        traffic_policy: config::set_over(b.traffic_policy, o.traffic_policy),
        metadata: config::set_over(b.metadata, o.metadata),
        forwards_to: config::set_over(b.forwards_to, o.forwards_to),
        binding: config::set_over(b.binding, config::first_of(o.bindings)),
        pooling_enabled: config::switch_over(b.pooling_enabled, o.pooling_enabled),
        verify_upstream_tls: config::switch_over(b.verify_upstream_tls, o.verify_upstream_tls),
        ..b
    }
}

/// The HTTP tunnel after the options were applied: it alone has an application protocol.
pub open spec fn with_http_options(
    b: TunnelBuilderView,
    o: EndpointOptionsView,
) -> TunnelBuilderView {
    TunnelBuilderView {
        app_protocol: config::set_over(b.app_protocol, o.app_protocol),
        ..with_options(b, o)
    }
}

/// Apply the options that all kinds of tunnels have.
fn apply_opts(b: &mut TunnelBuilder, opts: &EndpointOptions)
    ensures
        final(b)@ == with_options(old(b)@, opts@),
{
    set_text(&mut b.traffic_policy, &opts.traffic_policy);
    set_text(&mut b.metadata, &opts.metadata);
    set_text(&mut b.forwards_to, &opts.forwards_to);
    set_first(&mut b.binding, &opts.bindings);
    set_switch(&mut b.pooling_enabled, opts.pooling_enabled);
    set_switch(&mut b.verify_upstream_tls, opts.verify_upstream_tls);
}

/// Apply options to an HTTP tunnel.
pub fn apply_http_opts(b: &mut TunnelBuilder, opts: &EndpointOptions)
    ensures
        final(b)@ == with_http_options(old(b)@, opts@),
{
    apply_opts(b, opts);
    set_text(&mut b.app_protocol, &opts.app_protocol);
}

/// Apply options to a TCP tunnel.
pub fn apply_tcp_opts(b: &mut TunnelBuilder, opts: &EndpointOptions)
    ensures
        final(b)@ == with_options(old(b)@, opts@),
{
    apply_opts(b, opts);
}

/// Apply options to a TLS tunnel.
pub fn apply_tls_opts(b: &mut TunnelBuilder, opts: &EndpointOptions)
    ensures
        final(b)@ == with_options(old(b)@, opts@),
{
    apply_opts(b, opts);
}

/// The tunnel for an endpoint at the given URL, or `None` if there is no kind of endpoint for its
/// scheme.
pub open spec fn tunnel_at(u: EndpointUrlView, o: EndpointOptionsView) -> Option<TunnelBuilderView> {
    if u.scheme == "https"@ || u.scheme == "http"@ || u.scheme.len() == 0 {
        let b = config::plain_tunnel(TunnelKind::Http);
        Some(
            with_http_options(
                TunnelBuilderView { domain: config::set_over(b.domain, u.domain), ..b },
                o,
            ),
        )
    } else if u.scheme == "tcp"@ {
        let b = config::plain_tunnel(TunnelKind::Tcp);
        Some(
            with_options(
                TunnelBuilderView { remote_addr: config::set_over(b.remote_addr, u.addr), ..b },
                o,
            ),
        )
    } else if u.scheme == "tls"@ {
        let b = config::plain_tunnel(TunnelKind::Tls);
        Some(
            with_options(
                TunnelBuilderView { domain: config::set_over(b.domain, u.domain), ..b },
                o,
            ),
        )
    } else {
        None
    }
}

/// Dispatch to the appropriate kind of tunnel for an endpoint URL.
pub fn start_tunnel(url: EndpointUrl, opts: &EndpointOptions) -> (r: Result<TunnelBuilder, NgrokError>)
    ensures
        match tunnel_at(url@, opts@) {
            Some(b) => r is Ok && r->Ok_0@ == b,
            None => r matches Err(NgrokError::UnsupportedScheme { scheme }) && scheme@
                == url@.scheme,
        },
{
    let scheme: &str = url.scheme.as_str();
    if same_text(scheme, "https") || same_text(scheme, "http") || scheme.is_empty() {
        let mut b = TunnelBuilder::new(TunnelKind::Http);
        set_text(&mut b.domain, &url.domain);
        apply_http_opts(&mut b, opts);
        Ok(b)
    } else if same_text(scheme, "tcp") {
        let mut b = TunnelBuilder::new(TunnelKind::Tcp);
        set_text(&mut b.remote_addr, &url.addr);
        apply_tcp_opts(&mut b, opts);
        Ok(b)
    } else if same_text(scheme, "tls") {
        let mut b = TunnelBuilder::new(TunnelKind::Tls);
        set_text(&mut b.domain, &url.domain);
        apply_tls_opts(&mut b, opts);
        Ok(b)
    } else {
        Err(NgrokError::UnsupportedScheme { scheme: url.scheme })
    }
}

/// Whether `r` is the tunnel for an endpoint with these options, or the error that there is none.
pub open spec fn starts(r: Result<TunnelBuilder, NgrokError>, o: EndpointOptionsView) -> bool {
    match endpoint_url(o.url) {
        None => r is Err && is_invalid_url(r->Err_0, o.url->0, "failed to parse URL"@),
        Some(u) => match tunnel_at(u, o) {
            Some(b) => r is Ok && r->Ok_0@ == b,
            None => r matches Err(NgrokError::UnsupportedScheme { scheme }) && scheme@ == u.scheme,
        },
    }
}

/// Parse the URL and dispatch to the appropriate kind of tunnel for listening.
pub fn start_listener(opts: &EndpointOptions) -> (r: Result<TunnelBuilder, NgrokError>)
    ensures
        starts(r, opts@),
{
    let url: Option<&str> = match &opts.url {
        Some(url) => Some(url.as_str()),
        None => None,
    };
    match parse_endpoint_url(url) {
        Ok(parts) => start_tunnel(parts, opts),
        Err(e) => Err(e),
    }
}

/// Whether an agent can start an endpoint: it is connected, or connects by itself.
pub open spec fn can_start(v: agent::AgentView) -> bool {
    v.session is Some || v.auto_connect
}

/// Fail unless the agent can start an endpoint.
fn check_can_start(agent: &Agent) -> (r: Result<(), NgrokError>)
    ensures
        can_start(agent@) ==> r is Ok,
        !can_start(agent@) ==> r is Err && r->Err_0 is NotConnected,
{
    match agent.ensure_connected() {
        Ok(_) => Ok(()),
        Err(_) => Err(NgrokError::NotConnected),
    }
}

/// Whether `l` is the listener on a tunnel that was opened with these options.
pub open spec fn is_listener(l: EndpointListener, t: Tunnel, o: EndpointOptionsView) -> bool {
    &&& l.inner == t
    &&& l.traffic_policy@ == text::or_empty(o.traffic_policy)
    &&& l.description@ == text::or_empty(o.description)
    &&& l.bindings.deep_view() == o.bindings
    &&& l.pooling_enabled == (o.pooling_enabled == Some(true))
}

/// Whether `f` is the forwarder to an upstream on a tunnel that was opened with these options.
pub open spec fn is_forwarder(
    f: EndpointForwarder,
    t: Tunnel,
    upstream: UpstreamView,
    o: EndpointOptionsView,
) -> bool {
    &&& f.inner == t
    &&& f.upstream_url@ == upstream.addr
    &&& f.upstream_protocol.deep_view() == upstream.protocol
    &&& f.traffic_policy@ == text::or_empty(o.traffic_policy)
    &&& f.description@ == text::or_empty(o.description)
    &&& f.bindings.deep_view() == o.bindings
    &&& f.pooling_enabled == (o.pooling_enabled == Some(true))
}

/// A listener that was started.
#[derive(Debug)]
pub struct EndpointListener {
    /// The tunnel of the endpoint.
    pub inner: Tunnel,
    /// The traffic policy, or nothing.
    pub traffic_policy: String,
    /// The description, or nothing.
    pub description: String,
    /// The bindings.
    pub bindings: Vec<String>,
    /// Whether pooling is enabled.
    pub pooling_enabled: bool,
}

/// A forwarder that was started.
#[derive(Debug)]
pub struct EndpointForwarder {
    /// The tunnel of the endpoint.
    pub inner: Tunnel,
    /// The upstream address as it was given.
    pub upstream_url: String,
    /// The protocol of the upstream.
    pub upstream_protocol: Option<String>,
    /// The traffic policy, or nothing.
    pub traffic_policy: String,
    /// The description, or nothing.
    pub description: String,
    /// The bindings.
    pub bindings: Vec<String>,
    /// Whether pooling is enabled.
    pub pooling_enabled: bool,
}

/// A builder for creating an [`EndpointListener`].
pub struct EndpointListenBuilder<'a> {
    agent: &'a Agent,
    opts: EndpointOptions,
}

impl<'a> EndpointListenBuilder<'a> {
    /// The agent.
    pub closed spec fn of(&self) -> agent::AgentView {
        self.agent@
    }

    /// The options.
    pub closed spec fn options(&self) -> EndpointOptionsView {
        self.opts@
    }

    /// A builder on which nothing was set.
    pub fn new(agent: &'a Agent) -> (r: Self)
        ensures
            r.of() == agent@,
            r.options() == no_options(),
    {
        EndpointListenBuilder { agent, opts: EndpointOptions::default() }
    }

    /// Set the URL for this endpoint.
    ///
    /// The URL scheme determines the protocol:
    /// - `https://` or `http://` → HTTP endpoint
    /// - `tcp://` → TCP endpoint
    /// - `tls://` → TLS endpoint
    ///
    /// The host portion is used as the domain or address.
    pub fn url(self, url: &str) -> (r: Self)
        ensures
            r.of() == self.of(),
            r.options() == (EndpointOptionsView { url: Some(url@), ..self.options() }),
    {
        let opts = EndpointOptions { url: Some(url.to_owned()), ..self.opts };
        EndpointListenBuilder { agent: self.agent, opts }
    }

    /// Set the traffic policy for this endpoint (YAML or JSON string).
    pub fn traffic_policy(self, policy: &str) -> (r: Self)
        ensures
            r.of() == self.of(),
            r.options() == (EndpointOptionsView { traffic_policy: Some(policy@), ..self.options() }),
    {
        let opts = EndpointOptions { traffic_policy: Some(policy.to_owned()), ..self.opts };
        EndpointListenBuilder { agent: self.agent, opts }
    }

    /// Set opaque metadata for this endpoint.
    pub fn metadata(self, meta: &str) -> (r: Self)
        ensures
            r.of() == self.of(),
            r.options() == (EndpointOptionsView { metadata: Some(meta@), ..self.options() }),
    {
        let opts = EndpointOptions { metadata: Some(meta.to_owned()), ..self.opts };
        EndpointListenBuilder { agent: self.agent, opts }
    }

    /// Set a human-readable description for this endpoint.
    pub fn description(self, desc: &str) -> (r: Self)
        ensures
            r.of() == self.of(),
            r.options() == (EndpointOptionsView { description: Some(desc@), ..self.options() }),
    {
        let opts = EndpointOptions { description: Some(desc.to_owned()), ..self.opts };
        EndpointListenBuilder { agent: self.agent, opts }
    }

    /// Set the bindings for this endpoint.
    pub fn bindings(self, bindings: Vec<String>) -> (r: Self)
        ensures
            r.of() == self.of(),
            r.options() == (EndpointOptionsView {
                bindings: bindings.deep_view(),
                ..self.options()
            }),
    {
        let opts = EndpointOptions { bindings, ..self.opts };
        EndpointListenBuilder { agent: self.agent, opts }
    }

    /// Enable or disable connection pooling for this endpoint.
    pub fn pooling_enabled(self, enabled: bool) -> (r: Self)
        ensures
            r.of() == self.of(),
            r.options() == (EndpointOptionsView {
                pooling_enabled: Some(enabled),
                ..self.options()
            }),
    {
        let opts = EndpointOptions { pooling_enabled: Some(enabled), ..self.opts };
        EndpointListenBuilder { agent: self.agent, opts }
    }

    /// Set the application protocol for this endpoint.
    pub fn app_protocol(self, proto: &str) -> (r: Self)
        ensures
            r.of() == self.of(),
            r.options() == (EndpointOptionsView { app_protocol: Some(proto@), ..self.options() }),
    {
        let opts = EndpointOptions { app_protocol: Some(proto.to_owned()), ..self.opts };
        EndpointListenBuilder { agent: self.agent, opts }
    }

    /// Set the forwarding target description for this endpoint.
    pub fn forwards_to(self, addr: &str) -> (r: Self)
        ensures
            r.of() == self.of(),
            r.options() == (EndpointOptionsView { forwards_to: Some(addr@), ..self.options() }),
    {
        let opts = EndpointOptions { forwards_to: Some(addr.to_owned()), ..self.opts };
        EndpointListenBuilder { agent: self.agent, opts }
    }

    /// The tunnel to open for the listener. The agent connects first if it is not connected yet
    /// (when `auto_connect` is enabled).
    pub fn tunnel(&self) -> (r: Result<TunnelBuilder, NgrokError>)
        ensures
            if can_start(self.of()) {
                starts(r, self.options())
            } else {
                r is Err && r->Err_0 is NotConnected
            },
    {
        match check_can_start(self.agent) {
            Ok(_) => start_listener(&self.opts),
            Err(e) => Err(e),
        }
    }

    /// Start the endpoint listener, by what opening its tunnel came to.
    pub fn start(self, opened: Result<Tunnel, NgrokError>) -> (r: Result<EndpointListener, NgrokError>)
        ensures
            match opened {
                Ok(t) => r is Ok && is_listener(r->Ok_0, t, self.options()),
                Err(e) => r is Err && r->Err_0 == e,
            },
    {
        match opened {
            Ok(inner) => Ok(
                EndpointListener {
                    inner,
                    traffic_policy: text_or_empty(self.opts.traffic_policy),
                    description: text_or_empty(self.opts.description),
                    bindings: self.opts.bindings,
                    pooling_enabled: match self.opts.pooling_enabled {
                        Some(enabled) => enabled,
                        None => false,
                    },
                },
            ),
            Err(e) => Err(e),
        }
    }
}

/// A builder for creating an [`EndpointForwarder`].
pub struct EndpointForwardBuilder<'a> {
    agent: &'a Agent,
    upstream: Upstream,
    opts: EndpointOptions,
}

/// The options with which a forwarder to an upstream is started: unless another description of the
/// target was given it is the address of the upstream.
pub open spec fn forward_options(o: EndpointOptionsView, upstream: UpstreamView) -> EndpointOptionsView {
    EndpointOptionsView {
        forwards_to: match o.forwards_to {
            Some(target) => Some(target),
            None => Some(upstream.addr),
        },
        verify_upstream_tls: Some(upstream.verify_upstream_tls),
        ..o
    }
}

/// The text to be parsed for the URL of an upstream: an address without a scheme is one of TCP,
/// and a port alone is one of `localhost`.
pub open spec fn upstream_text(addr: Seq<char>) -> Seq<char> {
    if text::occurs_in("://"@, addr) {
        addr
    } else {
        match text::port_number(addr) {
            Some(port) => "tcp://"@ + text::host_and_port("localhost"@, port),
            None => "tcp://"@ + addr,
        }
    }
}

/// Why an upstream address was refused.
pub open spec fn upstream_reason(addr: Seq<char>) -> Seq<char> {
    if text::occurs_in("://"@, addr) {
        "invalid upstream URL"@
    } else {
        "invalid upstream address"@
    }
}

impl<'a> EndpointForwardBuilder<'a> {
    /// The agent.
    pub closed spec fn of(&self) -> agent::AgentView {
        self.agent@
    }

    /// The upstream.
    pub closed spec fn target(&self) -> UpstreamView {
        self.upstream@
    }

    /// The options.
    pub closed spec fn options(&self) -> EndpointOptionsView {
        self.opts@
    }

    /// A builder on which nothing was set.
    pub fn new(agent: &'a Agent, upstream: Upstream) -> (r: Self)
        ensures
            r.of() == agent@,
            r.target() == upstream@,
            r.options() == no_options(),
    {
        EndpointForwardBuilder { agent, upstream, opts: EndpointOptions::default() }
    }

    /// Set the URL for this endpoint.
    pub fn url(self, url: &str) -> (r: Self)
        ensures
            r.of() == self.of(),
            r.target() == self.target(),
            r.options() == (EndpointOptionsView { url: Some(url@), ..self.options() }),
    {
        let opts = EndpointOptions { url: Some(url.to_owned()), ..self.opts };
        EndpointForwardBuilder { agent: self.agent, upstream: self.upstream, opts }
    }

    /// Set the traffic policy for this endpoint.
    pub fn traffic_policy(self, policy: &str) -> (r: Self)
        ensures
            r.of() == self.of(),
            r.target() == self.target(),
            r.options() == (EndpointOptionsView { traffic_policy: Some(policy@), ..self.options() }),
    {
        let opts = EndpointOptions { traffic_policy: Some(policy.to_owned()), ..self.opts };
        EndpointForwardBuilder { agent: self.agent, upstream: self.upstream, opts }
    }

    /// Set opaque metadata for this endpoint.
    pub fn metadata(self, meta: &str) -> (r: Self)
        ensures
            r.of() == self.of(),
            r.target() == self.target(),
            r.options() == (EndpointOptionsView { metadata: Some(meta@), ..self.options() }),
    {
        let opts = EndpointOptions { metadata: Some(meta.to_owned()), ..self.opts };
        EndpointForwardBuilder { agent: self.agent, upstream: self.upstream, opts }
    }

    /// Set a human-readable description for this endpoint.
    pub fn description(self, desc: &str) -> (r: Self)
        ensures
            r.of() == self.of(),
            r.target() == self.target(),
            r.options() == (EndpointOptionsView { description: Some(desc@), ..self.options() }),
    {
        let opts = EndpointOptions { description: Some(desc.to_owned()), ..self.opts };
        EndpointForwardBuilder { agent: self.agent, upstream: self.upstream, opts }
    }

    /// Set the bindings for this endpoint.
    pub fn bindings(self, bindings: Vec<String>) -> (r: Self)
        ensures
            r.of() == self.of(),
            r.target() == self.target(),
            r.options() == (EndpointOptionsView {
                bindings: bindings.deep_view(),
                ..self.options()
            }),
    {
        let opts = EndpointOptions { bindings, ..self.opts };
        EndpointForwardBuilder { agent: self.agent, upstream: self.upstream, opts }
    }

    /// Enable or disable connection pooling for this endpoint.
    pub fn pooling_enabled(self, enabled: bool) -> (r: Self)
        ensures
            r.of() == self.of(),
            r.target() == self.target(),
            r.options() == (EndpointOptionsView {
                pooling_enabled: Some(enabled),
                ..self.options()
            }),
    {
        let opts = EndpointOptions { pooling_enabled: Some(enabled), ..self.opts };
        EndpointForwardBuilder { agent: self.agent, upstream: self.upstream, opts }
    }

    /// Set the application protocol for this endpoint.
    pub fn app_protocol(self, proto: &str) -> (r: Self)
        ensures
            r.of() == self.of(),
            r.target() == self.target(),
            r.options() == (EndpointOptionsView { app_protocol: Some(proto@), ..self.options() }),
    {
        let opts = EndpointOptions { app_protocol: Some(proto.to_owned()), ..self.opts };
        EndpointForwardBuilder { agent: self.agent, upstream: self.upstream, opts }
    }

    /// The tunnel to open for the forwarder, and the URL of its upstream. The agent connects first
    /// if it is not connected yet (when `auto_connect` is enabled).
    pub fn tunnel(&self) -> (r: Result<(TunnelBuilder, Url), NgrokError>)
        ensures
            if can_start(self.of()) {
                match urls::url_parse(upstream_text(self.target().addr)) {
                    Err(_) => r is Err && is_invalid_url(
                        r->Err_0,
                        self.target().addr,
                        upstream_reason(self.target().addr),
                    ),
                    Ok(to) => forwards(
                        r,
                        to,
                        forward_options(self.options(), self.target()),
                    ),
                }
            } else {
                r is Err && r->Err_0 is NotConnected
            },
    {
        let addr: &str = self.upstream.addr();
        let parsed: Result<Url, ParseError> = if contains_text(addr, "://") {
            Url::parse(addr)
        } else {
            match parse_port(addr) {
                Some(port) => Url::parse(
                    join("tcp://", join_host_port("localhost", port).as_str()).as_str(),
                ),
                None => Url::parse(join("tcp://", addr).as_str()),
            }
        };
        self.tunnel_to(parsed)
    }

    /// The tunnel to open for the forwarder, where the URL of its upstream was parsed.
    pub fn tunnel_to(&self, parsed: Result<Url, ParseError>) -> (r: Result<
        (TunnelBuilder, Url),
        NgrokError,
    >)
        ensures
            if can_start(self.of()) {
                match parsed {
                    Err(_) => r is Err && is_invalid_url(
                        r->Err_0,
                        self.target().addr,
                        upstream_reason(self.target().addr),
                    ),
                    Ok(to) => forwards(
                        r,
                        to@,
                        forward_options(self.options(), self.target()),
                    ),
                }
            } else {
                r is Err && r->Err_0 is NotConnected
            },
    {
        if let Err(e) = check_can_start(self.agent) {
            return Err(e);
        }
        let to_url: Url = match parsed {
            Ok(url) => url,
            Err(_) => {
                let addr: &str = self.upstream.addr();
                return Err(
                    if contains_text(addr, "://") {
                        invalid_url(addr, "invalid upstream URL")
                    } else {
                        invalid_url(addr, "invalid upstream address")
                    },
                );
            },
        };
        let opts: EndpointOptions = self.forward_opts();
        match start_listener(&opts) {
            Ok(b) => Ok((b, to_url)),
            Err(e) => Err(e),
        }
    }

    /// The options with which the forwarder is started.
    fn forward_opts(&self) -> (r: EndpointOptions)
        ensures
            r@ == forward_options(self.options(), self.target()),
    {
        let r = EndpointOptions {
            url: self.opts.url.clone(),
            traffic_policy: self.opts.traffic_policy.clone(),
            metadata: self.opts.metadata.clone(),
            description: self.opts.description.clone(),
            bindings: self.opts.bindings.clone(),
            pooling_enabled: self.opts.pooling_enabled,
            app_protocol: self.opts.app_protocol.clone(),
            verify_upstream_tls: Some(self.upstream.verify_upstream_tls),
            forwards_to: match &self.opts.forwards_to {
                Some(target) => Some(target.clone()),
                None => Some(self.upstream.addr.clone()),
            },
        };
        assert(r.bindings.deep_view() =~= self.opts.bindings.deep_view());
        r
    }

    /// Start the endpoint forwarder, by what opening its tunnel came to.
    pub fn start(self, opened: Result<Tunnel, NgrokError>) -> (r: Result<EndpointForwarder, NgrokError>)
        ensures
            match opened {
                Ok(t) => r is Ok && is_forwarder(r->Ok_0, t, self.target(), self.options()),
                Err(e) => r is Err && r->Err_0 == e,
            },
    {
        match opened {
            Ok(inner) => Ok(
                EndpointForwarder {
                    inner,
                    upstream_url: self.upstream.addr,
                    upstream_protocol: self.upstream.protocol,
                    traffic_policy: text_or_empty(self.opts.traffic_policy),
                    description: text_or_empty(self.opts.description),
                    bindings: self.opts.bindings,
                    pooling_enabled: match self.opts.pooling_enabled {
                        Some(enabled) => enabled,
                        None => false,
                    },
                },
            ),
            Err(e) => Err(e),
        }
    }
}

/// Whether `r` is the tunnel for an endpoint with these options together with the URL of its
/// upstream, or the error that there is none.
pub open spec fn forwards(
    r: Result<(TunnelBuilder, Url), NgrokError>,
    to: UrlView,
    o: EndpointOptionsView,
) -> bool {
    match r {
        Ok((b, url)) => url@ == to && starts(Ok(b), o),
        Err(e) => starts(Err(e), o),
    }
}

/// An endpoint URL without a scheme is the HTTPS endpoint of that domain; one with a scheme is
/// taken as it is.
pub proof fn domain_alone_means_https(domain: Seq<char>)
    requires
        !text::occurs_in("://"@, domain),
    ensures
        endpoint_url(Some(domain)) == endpoint_url(Some("https://"@ + domain)),
{
    reveal_strlit("https://");
    reveal_strlit("://");
    let full = "https://"@ + domain;
    assert(full.subrange(5, 8) =~= "://"@);
    assert(text::occurs_at("://"@, full, 5));
}

/// The scheme of an endpoint URL determines the kind of the tunnel, and its host and port are used
/// as the domain or, for TCP, as the remote address. Other schemes have no endpoints.
pub proof fn scheme_determines_the_tunnel(u: UrlView, o: EndpointOptionsView)
    requires
        u.scheme.len() > 0,
    ensures
        ({
            let t = tunnel_at(url_parts(u), o);
            let at = agent::host_port(u);
            &&& u.scheme == "http"@ || u.scheme == "https"@ ==> (t matches Some(b) && b.kind is Http
                && b.domain == at && b.remote_addr is None)
            &&& u.scheme == "tcp"@ ==> (t matches Some(b) && b.kind is Tcp && b.remote_addr == at
                && b.domain is None)
            &&& u.scheme == "tls"@ ==> (t matches Some(b) && b.kind is Tls && b.domain == at
                && b.remote_addr is None)
            &&& t is Some ==> u.scheme == "http"@ || u.scheme == "https"@ || u.scheme == "tcp"@
                || u.scheme == "tls"@
        }),
{
    reveal_strlit("http");
    reveal_strlit("https");
    reveal_strlit("tcp");
    reveal_strlit("tls");
    assert("http"@[1] == 't' && "https"@[1] == 't' && "tcp"@[1] == 'c' && "tls"@[1] == 'l');
}

/// Applying options sets each option of the tunnel that was set to exactly the value that was set,
/// and leaves every other one alone, for each kind of tunnel. An HTTP tunnel alone also takes the
/// application protocol. Of several bindings the first is used.
pub proof fn set_options_are_applied(b: TunnelBuilderView, o: EndpointOptionsView)
    ensures
        ({
            let h = with_http_options(b, o);
            let t = with_options(b, o);
            &&& h.traffic_policy == t.traffic_policy && h.metadata == t.metadata
            &&& h.forwards_to == t.forwards_to && h.binding == t.binding
            &&& h.pooling_enabled == t.pooling_enabled
            &&& h.verify_upstream_tls == t.verify_upstream_tls
            &&& o.traffic_policy is Some ==> t.traffic_policy == o.traffic_policy
            &&& o.traffic_policy is None ==> t.traffic_policy == b.traffic_policy
            &&& o.metadata is Some ==> t.metadata == o.metadata
            &&& o.metadata is None ==> t.metadata == b.metadata
            &&& o.forwards_to is Some ==> t.forwards_to == o.forwards_to
            &&& o.forwards_to is None ==> t.forwards_to == b.forwards_to
            &&& o.bindings.len() > 0 ==> t.binding == Some(o.bindings[0])
            &&& o.bindings.len() == 0 ==> t.binding == b.binding
            &&& o.pooling_enabled is Some ==> t.pooling_enabled == o.pooling_enabled
            &&& o.pooling_enabled is None ==> t.pooling_enabled == b.pooling_enabled
            &&& o.verify_upstream_tls is Some ==> t.verify_upstream_tls == o.verify_upstream_tls
            &&& o.verify_upstream_tls is None ==> t.verify_upstream_tls == b.verify_upstream_tls
            &&& o.app_protocol is Some ==> h.app_protocol == o.app_protocol
            &&& o.app_protocol is None ==> h.app_protocol == b.app_protocol
            &&& t.app_protocol == b.app_protocol
            &&& t.kind == b.kind && t.domain == b.domain && t.remote_addr == b.remote_addr
            &&& t.scheme == b.scheme
            &&& h.kind == b.kind && h.domain == b.domain && h.remote_addr == b.remote_addr
            &&& h.scheme == b.scheme
        }),
{
}

/// The tunnel that is started asks for each option with exactly the value that was set, and leaves
/// to the service what was not set. The application protocol is asked for with HTTP only.
pub proof fn started_tunnel_asks_for_what_was_set(t: TunnelBuilder, o: EndpointOptions)
    requires
        starts(Ok(t), o@),
    ensures
        match (t.traffic_policy, o.traffic_policy) {
            (Some(a), Some(b)) => a@ == b@,
            (None, None) => true,
            _ => false,
        },
        match (t.metadata, o.metadata) {
            (Some(a), Some(b)) => a@ == b@,
            (None, None) => true,
            _ => false,
        },
        match (t.forwards_to, o.forwards_to) {
            (Some(a), Some(b)) => a@ == b@,
            (None, None) => true,
            _ => false,
        },
        t.pooling_enabled == o.pooling_enabled,
        t.verify_upstream_tls == o.verify_upstream_tls,
        t.binding is Some == (o.bindings@.len() > 0),
        t.binding matches Some(binding) ==> binding@ == o.bindings@[0]@,
        t.kind is Http ==> (match (t.app_protocol, o.app_protocol) {
            (Some(a), Some(b)) => a@ == b@,
            (None, None) => true,
            _ => false,
        }),
        !(t.kind is Http) ==> t.app_protocol is None,
        t.scheme is None,
{
    if o.bindings@.len() > 0 {
        assert(o@.bindings[0] == o.bindings@[0]@);
    }
}

/// The URL of an endpoint is the text that was given, where that holds `://`, and otherwise that text
/// behind `https://`; without a URL the endpoint is one of HTTPS at no particular domain. The scheme
/// says which kind of tunnel is started. The host, with the port if the URL names one, is the domain
/// of an HTTP or TLS tunnel and the remote address of a TCP tunnel.
pub proof fn started_tunnel_is_at_the_url(
    r: Result<TunnelBuilder, NgrokError>,
    o: EndpointOptions,
    full: Seq<char>,
)
    requires
        starts(r, o@),
        o.url matches Some(url) ==> full == if text::occurs_in("://"@, url@) {
            url@
        } else {
            "https://"@ + url@
        },
    ensures
        o.url is None ==> (r matches Ok(t) && t.kind is Http && t.domain is None && t.remote_addr
            is None),
        o.url matches Some(url) ==> match urls::url_parse(full) {
            Err(_) => r matches Err(NgrokError::InvalidUrl { url: u, reason }) && u@ == url@,
            Ok(u) => {
                let at = match (u.host, u.port) {
                    (Some(host), Some(port)) => Some(
                        host + seq![':'] + text::decimal(port as nat),
                    ),
                    (Some(host), None) => Some(host),
                    (None, _) => None,
                };
                let http = u.scheme == "https"@ || u.scheme == "http"@ || u.scheme.len() == 0;
                &&& http ==> (r matches Ok(t) && t.kind is Http && t@.domain == at && t.remote_addr
                    is None)
                &&& u.scheme == "tls"@ ==> (r matches Ok(t) && t.kind is Tls && t@.domain == at
                    && t.remote_addr is None)
                &&& u.scheme == "tcp"@ ==> (r matches Ok(t) && t.kind is Tcp && t@.remote_addr == at
                    && t.domain is None)
                &&& !http && u.scheme != "tls"@ && u.scheme != "tcp"@ ==> (r matches Err(
                    NgrokError::UnsupportedScheme { scheme },
                ) && scheme@ == u.scheme)
            },
        },
{
    reveal_strlit("http");
    reveal_strlit("https");
    reveal_strlit("tcp");
    reveal_strlit("tls");
    assert("http"@[1] == 't' && "https"@[1] == 't' && "tcp"@[1] == 'c' && "tls"@[1] == 'l');
    assert("http"@.len() > 0 && "tcp"@.len() > 0 && "tls"@.len() > 0);
    if o.url is Some {
        if let Ok(u) = urls::url_parse(full) {
            if let (Some(host), Some(port)) = (u.host, u.port) {
                text::host_and_port_are_joined_by_a_colon(host, port);
            }
        }
    }
}

/// A forwarder asks for everything that was set on it. Besides, it is described by the address of
/// its upstream unless another description was set, and verifies the upstream if and only if the
/// upstream says so.
pub proof fn forwarder_asks_for_what_was_set(o: EndpointOptionsView, upstream: UpstreamView)
    ensures
        ({
            let f = forward_options(o, upstream);
            &&& f.forwards_to is Some
            &&& o.forwards_to is Some ==> f.forwards_to == o.forwards_to
            &&& o.forwards_to is None ==> f.forwards_to == Some(upstream.addr)
            &&& f.verify_upstream_tls == Some(upstream.verify_upstream_tls)
            &&& f.url == o.url && f.traffic_policy == o.traffic_policy && f.metadata == o.metadata
            &&& f.description == o.description && f.bindings == o.bindings
            &&& f.pooling_enabled == o.pooling_enabled && f.app_protocol == o.app_protocol
        }),
{
}

/// The URL of an upstream is its address, where that holds `://`; a port number is that port of
/// `localhost` over TCP; any other address is that of TCP.
pub proof fn upstream_is_taken_as_written(addr: Seq<char>)
    ensures
        text::occurs_in("://"@, addr) ==> upstream_text(addr) == addr,
        !text::occurs_in("://"@, addr) ==> (text::port_number(addr) matches Some(port)
            ==> upstream_text(addr) == "tcp://localhost:"@ + text::decimal(port as nat)),
        !text::occurs_in("://"@, addr) && text::port_number(addr) is None ==> upstream_text(addr)
            == "tcp://"@ + addr,
        text::occurs_in("://"@, addr) ==> upstream_reason(addr) == "invalid upstream URL"@,
        !text::occurs_in("://"@, addr) ==> upstream_reason(addr) == "invalid upstream address"@,
{
    reveal_strlit("tcp://localhost:");
    reveal_strlit("tcp://");
    reveal_strlit("localhost");
    if let Some(port) = text::port_number(addr) {
        text::host_and_port_are_joined_by_a_colon("localhost"@, port);
        assert("tcp://"@ + ("localhost"@ + seq![':'] + text::decimal(port as nat))
            =~= "tcp://localhost:"@ + text::decimal(port as nat));
    }
}

/// What starting a forwarder came to is the tunnel together with the URL of the upstream, or the
/// error of the tunnel.
pub proof fn forwarder_is_a_tunnel_and_a_target(
    r: Result<(TunnelBuilder, Url), NgrokError>,
    to: UrlView,
    o: EndpointOptionsView,
)
    requires
        forwards(r, to, o),
    ensures
        r matches Ok((b, url)) ==> url@ == to && starts(Ok(b), o),
        r matches Err(e) ==> starts(Err(e), o),
{
}

/// An endpoint can be started if and only if the agent is connected or connects by itself.
pub proof fn connected_agent_can_start(v: agent::AgentView)
    ensures
        can_start(v) <==> v.session is Some || v.auto_connect,
{
}

/// A listener is on the tunnel that was opened, and remembers what was set, with nothing in place of
/// what was not.
pub proof fn listener_remembers_what_was_set(l: EndpointListener, t: Tunnel, o: EndpointOptions)
    requires
        is_listener(l, t, o@),
    ensures
        l.inner == t,
        match o.traffic_policy {
            Some(p) => l.traffic_policy@ == p@,
            None => l.traffic_policy@.len() == 0,
        },
        match o.description {
            Some(d) => l.description@ == d@,
            None => l.description@.len() == 0,
        },
        l.bindings@.len() == o.bindings@.len(),
        forall|i: int| 0 <= i < o.bindings@.len() ==> (#[trigger] l.bindings@[i])@ == o.bindings@[i]@,
        match o.pooling_enabled {
            Some(enabled) => l.pooling_enabled == enabled,
            None => !l.pooling_enabled,
        },
{
    assert(l.bindings.deep_view().len() == o.bindings.deep_view().len());
    assert forall|i: int| 0 <= i < o.bindings@.len() implies (#[trigger] l.bindings@[i])@
        == o.bindings@[i]@ by {
        assert(l.bindings.deep_view()[i] == o.bindings.deep_view()[i]);
    }
}

/// A forwarder is on the tunnel that was opened, names the upstream as it was given, and remembers
/// what was set, with nothing in place of what was not.
pub proof fn forwarder_remembers_what_was_set(
    f: EndpointForwarder,
    t: Tunnel,
    upstream: Upstream,
    o: EndpointOptions,
)
    requires
        is_forwarder(f, t, upstream@, o@),
    ensures
        f.inner == t,
        f.upstream_url@ == upstream.addr@,
        match (f.upstream_protocol, upstream.protocol) {
            (Some(a), Some(b)) => a@ == b@,
            (None, None) => true,
            _ => false,
        },
        match o.traffic_policy {
            Some(p) => f.traffic_policy@ == p@,
            None => f.traffic_policy@.len() == 0,
        },
        match o.description {
            Some(d) => f.description@ == d@,
            None => f.description@.len() == 0,
        },
        f.bindings@.len() == o.bindings@.len(),
        forall|i: int| 0 <= i < o.bindings@.len() ==> (#[trigger] f.bindings@[i])@ == o.bindings@[i]@,
        match o.pooling_enabled {
            Some(enabled) => f.pooling_enabled == enabled,
            None => !f.pooling_enabled,
        },
{
    assert(f.bindings.deep_view().len() == o.bindings.deep_view().len());
    assert forall|i: int| 0 <= i < o.bindings@.len() implies (#[trigger] f.bindings@[i])@
        == o.bindings@[i]@ by {
        assert(f.bindings.deep_view()[i] == o.bindings.deep_view()[i]);
    }
}

/// A builder on which nothing was set asks for nothing.
pub proof fn no_options_ask_for_nothing(o: EndpointOptions)
    requires
        o@ == no_options(),
    ensures
        o.url is None && o.traffic_policy is None && o.metadata is None && o.description is None,
        o.bindings@.len() == 0,
        o.pooling_enabled is None && o.app_protocol is None && o.verify_upstream_tls is None,
        o.forwards_to is None,
{
    assert(o.bindings.deep_view().len() == o.bindings@.len());
}

/// An HTTP tunnel takes every option that was set, with its value, and the application protocol with
/// them; an option that was not set, and everything else, stays.
pub proof fn http_tunnel_takes_its_options(b: &mut TunnelBuilder, opts: &EndpointOptions)
    requires
        call_ensures(apply_http_opts, (b, opts), ()),
    ensures
        match opts.traffic_policy {
            Some(t) => final(b)@.traffic_policy == Some(t@),
            None => final(b)@.traffic_policy == old(b)@.traffic_policy,
        },
        match opts.metadata {
            Some(t) => final(b)@.metadata == Some(t@),
            None => final(b)@.metadata == old(b)@.metadata,
        },
        match opts.forwards_to {
            Some(t) => final(b)@.forwards_to == Some(t@),
            None => final(b)@.forwards_to == old(b)@.forwards_to,
        },
        match opts.app_protocol {
            Some(t) => final(b)@.app_protocol == Some(t@),
            None => final(b)@.app_protocol == old(b)@.app_protocol,
        },
        opts.bindings@.len() > 0 ==> final(b)@.binding == Some(opts.bindings@[0]@),
        opts.bindings@.len() == 0 ==> final(b)@.binding == old(b)@.binding,
        opts.pooling_enabled is Some ==> final(b).pooling_enabled == opts.pooling_enabled,
        opts.pooling_enabled is None ==> final(b).pooling_enabled == old(b).pooling_enabled,
        opts.verify_upstream_tls is Some ==> final(b).verify_upstream_tls
            == opts.verify_upstream_tls,
        opts.verify_upstream_tls is None ==> final(b).verify_upstream_tls == old(b).verify_upstream_tls,
        final(b).kind == old(b).kind && final(b).scheme == old(b).scheme,
        final(b)@.domain == old(b)@.domain && final(b)@.remote_addr == old(b)@.remote_addr,
{
    set_options_are_applied(b@, opts@);
    if opts.bindings@.len() > 0 {
        assert(opts@.bindings[0] == opts.bindings@[0]@);
    }
}

/// A TCP tunnel takes every option that was set, with its value, but no application protocol; an option
/// that was not set, and everything else, stays.
pub proof fn tcp_tunnel_takes_its_options(b: &mut TunnelBuilder, opts: &EndpointOptions)
    requires
        call_ensures(apply_tcp_opts, (b, opts), ()),
    ensures
        match opts.traffic_policy {
            Some(t) => final(b)@.traffic_policy == Some(t@),
            None => final(b)@.traffic_policy == old(b)@.traffic_policy,
        },
        match opts.metadata {
            Some(t) => final(b)@.metadata == Some(t@),
            None => final(b)@.metadata == old(b)@.metadata,
        },
        match opts.forwards_to {
            Some(t) => final(b)@.forwards_to == Some(t@),
            None => final(b)@.forwards_to == old(b)@.forwards_to,
        },
        final(b)@.app_protocol == old(b)@.app_protocol,
        opts.bindings@.len() > 0 ==> final(b)@.binding == Some(opts.bindings@[0]@),
        opts.bindings@.len() == 0 ==> final(b)@.binding == old(b)@.binding,
        opts.pooling_enabled is Some ==> final(b).pooling_enabled == opts.pooling_enabled,
        opts.pooling_enabled is None ==> final(b).pooling_enabled == old(b).pooling_enabled,
        opts.verify_upstream_tls is Some ==> final(b).verify_upstream_tls
            == opts.verify_upstream_tls,
        opts.verify_upstream_tls is None ==> final(b).verify_upstream_tls == old(b).verify_upstream_tls,
        final(b).kind == old(b).kind && final(b).scheme == old(b).scheme,
        final(b)@.domain == old(b)@.domain && final(b)@.remote_addr == old(b)@.remote_addr,
{
    set_options_are_applied(b@, opts@);
    if opts.bindings@.len() > 0 {
        assert(opts@.bindings[0] == opts.bindings@[0]@);
    }
}

/// A TLS tunnel takes every option that was set, with its value, but no application protocol; an option
/// that was not set, and everything else, stays.
pub proof fn tls_tunnel_takes_its_options(b: &mut TunnelBuilder, opts: &EndpointOptions)
    requires
        call_ensures(apply_tls_opts, (b, opts), ()),
    ensures
        match opts.traffic_policy {
            Some(t) => final(b)@.traffic_policy == Some(t@),
            None => final(b)@.traffic_policy == old(b)@.traffic_policy,
        },
        match opts.metadata {
            Some(t) => final(b)@.metadata == Some(t@),
            None => final(b)@.metadata == old(b)@.metadata,
        },
        match opts.forwards_to {
            Some(t) => final(b)@.forwards_to == Some(t@),
            None => final(b)@.forwards_to == old(b)@.forwards_to,
        },
        final(b)@.app_protocol == old(b)@.app_protocol,
        opts.bindings@.len() > 0 ==> final(b)@.binding == Some(opts.bindings@[0]@),
        opts.bindings@.len() == 0 ==> final(b)@.binding == old(b)@.binding,
        opts.pooling_enabled is Some ==> final(b).pooling_enabled == opts.pooling_enabled,
        opts.pooling_enabled is None ==> final(b).pooling_enabled == old(b).pooling_enabled,
        opts.verify_upstream_tls is Some ==> final(b).verify_upstream_tls
            == opts.verify_upstream_tls,
        opts.verify_upstream_tls is None ==> final(b).verify_upstream_tls == old(b).verify_upstream_tls,
        final(b).kind == old(b).kind && final(b).scheme == old(b).scheme,
        final(b)@.domain == old(b)@.domain && final(b)@.remote_addr == old(b)@.remote_addr,
{
    set_options_are_applied(b@, opts@);
    if opts.bindings@.len() > 0 {
        assert(opts@.bindings[0] == opts.bindings@[0]@);
    }
}

/// Setting something on a builder for a listener sets that, and nothing else, for the same agent.
pub proof fn listen_builder_sets_one_thing(
    b: EndpointListenBuilder,
    text: &str,
    with_url: EndpointListenBuilder,
    with_traffic_policy: EndpointListenBuilder,
    with_metadata: EndpointListenBuilder,
    with_description: EndpointListenBuilder,
    with_app_protocol: EndpointListenBuilder,
    with_forwards_to: EndpointListenBuilder,
    bindings: Vec<String>,
    with_bindings: EndpointListenBuilder,
    on: bool,
    with_pooling: EndpointListenBuilder,
)
    requires
        call_ensures(EndpointListenBuilder::url, (b, text), with_url),
        call_ensures(EndpointListenBuilder::traffic_policy, (b, text), with_traffic_policy),
        call_ensures(EndpointListenBuilder::metadata, (b, text), with_metadata),
        call_ensures(EndpointListenBuilder::description, (b, text), with_description),
        call_ensures(EndpointListenBuilder::app_protocol, (b, text), with_app_protocol),
        call_ensures(EndpointListenBuilder::forwards_to, (b, text), with_forwards_to),
        call_ensures(EndpointListenBuilder::bindings, (b, bindings), with_bindings),
        call_ensures(EndpointListenBuilder::pooling_enabled, (b, on), with_pooling),
    ensures
        with_url.options() == (EndpointOptionsView { url: Some(text@), ..b.options() }),
        with_traffic_policy.options() == (EndpointOptionsView { traffic_policy: Some(text@), ..b.options() }),
        with_metadata.options() == (EndpointOptionsView { metadata: Some(text@), ..b.options() }),
        with_description.options() == (EndpointOptionsView { description: Some(text@), ..b.options() }),
        with_app_protocol.options() == (EndpointOptionsView { app_protocol: Some(text@), ..b.options() }),
        with_forwards_to.options() == (EndpointOptionsView { forwards_to: Some(text@), ..b.options() }),
        with_bindings.options() == (EndpointOptionsView {
            bindings: bindings.deep_view(),
            ..b.options()
        }),
        with_pooling.options() == (EndpointOptionsView {
            pooling_enabled: Some(on),
            ..b.options()
        }),
        with_url.of() == b.of(),
        with_traffic_policy.of() == b.of(),
        with_metadata.of() == b.of(),
        with_description.of() == b.of(),
        with_app_protocol.of() == b.of(),
        with_forwards_to.of() == b.of(),
        with_bindings.of() == b.of() && with_pooling.of() == b.of(),
{
}

/// Setting something on a builder for a forwarder sets that, and nothing else, for the same agent and
/// the same upstream.
pub proof fn forward_builder_sets_one_thing(
    b: EndpointForwardBuilder,
    text: &str,
    with_url: EndpointForwardBuilder,
    with_traffic_policy: EndpointForwardBuilder,
    with_metadata: EndpointForwardBuilder,
    with_description: EndpointForwardBuilder,
    with_app_protocol: EndpointForwardBuilder,
    bindings: Vec<String>,
    with_bindings: EndpointForwardBuilder,
    on: bool,
    with_pooling: EndpointForwardBuilder,
)
    requires
        call_ensures(EndpointForwardBuilder::url, (b, text), with_url),
        call_ensures(EndpointForwardBuilder::traffic_policy, (b, text), with_traffic_policy),
        call_ensures(EndpointForwardBuilder::metadata, (b, text), with_metadata),
        call_ensures(EndpointForwardBuilder::description, (b, text), with_description),
        call_ensures(EndpointForwardBuilder::app_protocol, (b, text), with_app_protocol),
        call_ensures(EndpointForwardBuilder::bindings, (b, bindings), with_bindings),
        call_ensures(EndpointForwardBuilder::pooling_enabled, (b, on), with_pooling),
    ensures
        with_url.options() == (EndpointOptionsView { url: Some(text@), ..b.options() }),
        with_traffic_policy.options() == (EndpointOptionsView { traffic_policy: Some(text@), ..b.options() }),
        with_metadata.options() == (EndpointOptionsView { metadata: Some(text@), ..b.options() }),
        with_description.options() == (EndpointOptionsView { description: Some(text@), ..b.options() }),
        with_app_protocol.options() == (EndpointOptionsView { app_protocol: Some(text@), ..b.options() }),
        with_bindings.options() == (EndpointOptionsView {
            bindings: bindings.deep_view(),
            ..b.options()
        }),
        with_pooling.options() == (EndpointOptionsView {
            pooling_enabled: Some(on),
            ..b.options()
        }),
        with_url.of() == b.of() && with_url.target() == b.target(),
        with_traffic_policy.of() == b.of() && with_traffic_policy.target() == b.target(),
        with_metadata.of() == b.of() && with_metadata.target() == b.target(),
        with_description.of() == b.of() && with_description.target() == b.target(),
        with_app_protocol.of() == b.of() && with_app_protocol.target() == b.target(),
        with_bindings.of() == b.of() && with_bindings.target() == b.target(),
        with_pooling.of() == b.of() && with_pooling.target() == b.target(),
{
}

/// What a listener is started with: nothing, where the agent is not connected and does not connect by
/// itself, and otherwise the tunnel at its URL with every option that was set.
pub proof fn listener_is_started_with_its_options(
    b: EndpointListenBuilder,
    r: Result<TunnelBuilder, NgrokError>,
    started: Result<TunnelBuilder, NgrokError>,
    o: &EndpointOptions,
)
    requires
        call_ensures(EndpointListenBuilder::tunnel, (&b,), r),
        call_ensures(start_listener, (o,), started),
        o@ == b.options(),
    ensures
        b.of().session is None && !b.of().auto_connect ==> (r matches Err(NgrokError::NotConnected)),
        b.of().session is Some || b.of().auto_connect ==> {
            &&& r is Ok <==> started is Ok
            &&& r matches Ok(t) ==> {
                &&& t@ == started->Ok_0@
                &&& t@.traffic_policy == b.options().traffic_policy
                &&& t@.metadata == b.options().metadata
                &&& t@.forwards_to == b.options().forwards_to
                &&& t.pooling_enabled == b.options().pooling_enabled
                &&& t.verify_upstream_tls == b.options().verify_upstream_tls
                &&& b.options().bindings.len() > 0 ==> t@.binding == Some(b.options().bindings[0])
                &&& b.options().bindings.len() == 0 ==> t.binding is None
            }
        },
{
}

/// What a forwarder is started with: the tunnel at its URL with every option that was set, described
/// by the upstream unless it was described otherwise, and the URL of the upstream.
pub proof fn forwarder_is_started_to_its_upstream(
    b: EndpointForwardBuilder,
    parsed: Result<Url, ParseError>,
    r: Result<(TunnelBuilder, Url), NgrokError>,
)
    requires
        call_ensures(EndpointForwardBuilder::tunnel_to, (&b, parsed), r),
    ensures
        b.of().session is None && !b.of().auto_connect ==> (r matches Err(NgrokError::NotConnected)),
        (b.of().session is Some || b.of().auto_connect) && parsed is Err ==> (r matches Err(
            NgrokError::InvalidUrl { url, reason },
        ) && url@ == b.target().addr),
        r matches Ok((t, url)) ==> {
            &&& parsed is Ok && url@ == parsed->Ok_0@
            &&& t@.traffic_policy == b.options().traffic_policy
            &&& t@.metadata == b.options().metadata
            &&& t.pooling_enabled == b.options().pooling_enabled
            &&& t.verify_upstream_tls == Some(b.target().verify_upstream_tls)
            &&& b.options().forwards_to is None ==> t@.forwards_to == Some(b.target().addr)
            &&& b.options().forwards_to is Some ==> t@.forwards_to == b.options().forwards_to
            &&& b.options().bindings.len() > 0 ==> t@.binding == Some(b.options().bindings[0])
            &&& b.options().bindings.len() == 0 ==> t.binding is None
        },
{
    forwarder_asks_for_what_was_set(b.options(), b.target());
}

/// A URL that was parsed falls apart into its scheme and its address: the remote address of a TCP
/// endpoint, and the domain of any other. One that was not is reported as it was given.
pub proof fn endpoint_url_falls_apart(
    url: &str,
    parsed: Result<Url, ParseError>,
    r: Result<EndpointUrl, NgrokError>,
)
    requires
        call_ensures(parts_of, (url, parsed), r),
    ensures
        parsed is Err ==> (r matches Err(NgrokError::InvalidUrl { url: u, reason }) && u@ == url@),
        parsed matches Ok(u) ==> {
            let at = match (u.host, u.port) {
                (Some(host), Some(port)) => Some(host@ + seq![':'] + text::decimal(port as nat)),
                (Some(host), None) => Some(host@),
                (None, _) => None,
            };
            &&& r is Ok
            &&& r->Ok_0.scheme@ == u.scheme@
            &&& u.scheme@ == "tcp"@ ==> r->Ok_0@.addr == at && r->Ok_0.domain is None
            &&& u.scheme@ != "tcp"@ ==> r->Ok_0@.domain == at && r->Ok_0.addr is None
        },
{
    if let Ok(u) = parsed {
        if let (Some(host), Some(port)) = (u.host, u.port) {
            text::host_and_port_are_joined_by_a_colon(host@, port);
        }
    }
}

/// What a listener is started with is what its URL and its options ask for.
pub proof fn started_tunnel_is_what_the_options_ask_for(
    o: &EndpointOptions,
    r: Result<TunnelBuilder, NgrokError>,
)
    requires
        call_ensures(start_listener, (o,), r),
    ensures
        starts(r, o@),
{
}

/// A forwarder is started if and only if its upstream is a URL and a listener would be started with its
/// options, described by the upstream unless they describe it otherwise, and with the upstream's
/// verification; it is then started with that listener's tunnel.
pub proof fn forwarder_is_started_as_a_listener_is(
    b: EndpointForwardBuilder,
    parsed: Result<Url, ParseError>,
    r: Result<(TunnelBuilder, Url), NgrokError>,
    o: &EndpointOptions,
    started: Result<TunnelBuilder, NgrokError>,
)
    requires
        call_ensures(EndpointForwardBuilder::tunnel_to, (&b, parsed), r),
        call_ensures(start_listener, (o,), started),
        b.of().session is Some || b.of().auto_connect,
        o@ == (EndpointOptionsView {
            forwards_to: if b.options().forwards_to is Some {
                b.options().forwards_to
            } else {
                Some(b.target().addr)
            },
            verify_upstream_tls: Some(b.target().verify_upstream_tls),
            ..b.options()
        }),
    ensures
        r is Ok <==> parsed is Ok && started is Ok,
        r matches Ok((t, url)) ==> t@ == started->Ok_0@ && url@ == parsed->Ok_0@,
{
    forwarder_asks_for_what_was_set(b.options(), b.target());
}

/// A forwarder is started to the URL that its upstream address stands for: the address itself, where it
/// holds `://`; that port of `localhost`, where it is a port number; and otherwise the address over TCP.
pub proof fn forwarder_is_started_to_its_address(
    b: EndpointForwardBuilder,
    r: Result<(TunnelBuilder, Url), NgrokError>,
    full: Seq<char>,
)
    requires
        call_ensures(EndpointForwardBuilder::tunnel, (&b,), r),
        full == if text::occurs_in("://"@, b.target().addr) {
            b.target().addr
        } else {
            match text::port_number(b.target().addr) {
                Some(port) => "tcp://localhost:"@ + text::decimal(port as nat),
                None => "tcp://"@ + b.target().addr,
            }
        },
    ensures
        b.of().session is None && !b.of().auto_connect ==> (r matches Err(NgrokError::NotConnected)),
        r matches Ok((t, url)) ==> urls::url_parse(full) == Ok::<UrlView, Seq<char>>(url@),
        b.of().session is Some || b.of().auto_connect ==> (urls::url_parse(full) is Err ==> (
        r matches Err(NgrokError::InvalidUrl { url, reason }) && url@ == b.target().addr)),
        r matches Ok((t, url)) ==> starts(Ok(t), forward_options(b.options(), b.target())),
{
    upstream_is_taken_as_written(b.target().addr);
}

/// An endpoint is started if and only if its tunnel was opened; its handle is on that tunnel, and
/// remembers what was set.
pub proof fn started_endpoint_is_on_its_tunnel(
    l: EndpointListenBuilder,
    f: EndpointForwardBuilder,
    opened: Result<Tunnel, NgrokError>,
    listens: Result<EndpointListener, NgrokError>,
    forwards: Result<EndpointForwarder, NgrokError>,
)
    requires
        call_ensures(EndpointListenBuilder::start, (l, opened), listens),
        call_ensures(EndpointForwardBuilder::start, (f, opened), forwards),
    ensures
        opened matches Ok(t) ==> listens is Ok && is_listener(listens->Ok_0, t, l.options()),
        opened matches Ok(t) ==> forwards is Ok && is_forwarder(
            forwards->Ok_0,
            t,
            f.target(),
            f.options(),
        ),
        opened matches Err(e) ==> (listens matches Err(x) && x == e) && (forwards matches Err(x) && x
            == e),
{
}

/// A builder that is made has nothing set, for the agent and to the upstream that it was made with.
pub proof fn new_builders_have_nothing_set(
    agent: &Agent,
    l: EndpointListenBuilder,
    upstream: Upstream,
    f: EndpointForwardBuilder,
)
    requires
        call_ensures(EndpointListenBuilder::new, (agent,), l),
        call_ensures(EndpointForwardBuilder::new, (agent, upstream), f),
    ensures
        l.of() == agent@ && f.of() == agent@ && f.target() == upstream@,
        l.options() == f.options(),
        l.options().url is None && l.options().traffic_policy is None && l.options().metadata
            is None && l.options().description is None && l.options().bindings.len() == 0
            && l.options().pooling_enabled is None && l.options().app_protocol is None
            && l.options().verify_upstream_tls is None && l.options().forwards_to is None,
{
}

} // verus!
