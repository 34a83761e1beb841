//! Upstream forwarding configuration.
use vstd::prelude::*;

verus! {

/// The PROXY protocol version to use when forwarding connections.
#[derive(Debug, Clone, Copy, PartialEq, Eq, Structural)]
#[non_exhaustive]
pub enum ProxyProtoVersion {
    /// No PROXY protocol header (default).
    Off,
    /// PROXY protocol version 1 (text).
    V1,
    /// PROXY protocol version 2 (binary).
    V2,
}

impl Default for ProxyProtoVersion {
    fn default() -> (r: ProxyProtoVersion)
        ensures
            r == ProxyProtoVersion::Off,
    {
        ProxyProtoVersion::Off
    }
}

/// Upstream forwarding configuration.
///
/// Specifies where to forward traffic for a `forward()` endpoint.
pub struct Upstream {
    /// The upstream address (e.g., `"localhost:8080"`, `"http://localhost:8080"`).
    pub addr: String,
    /// Optional protocol override.
    pub protocol: Option<String>,
    /// Optional custom TLS config for upstream TLS connections.
    pub tls_config: Option<rustls::ClientConfig>,
    /// PROXY protocol version.
    pub proxy_proto: ProxyProtoVersion,
    /// Whether to verify the TLS certificates of the upstream.
    pub verify_upstream_tls: bool,
}

/// An upstream, as mathematical values.
pub struct UpstreamView {
    /// The upstream address.
    pub addr: Seq<char>,
    /// Optional protocol override.
    pub protocol: Option<Seq<char>>,
    /// Optional custom TLS config for upstream TLS connections.
    pub tls_config: Option<rustls::ClientConfig>,
    /// PROXY protocol version.
    pub proxy_proto: ProxyProtoVersion,
    /// Whether to verify the TLS certificates of the upstream.
    pub verify_upstream_tls: bool,
}

impl View for Upstream {
    type V = UpstreamView;

    open spec fn view(&self) -> UpstreamView {
        UpstreamView {
            addr: self.addr@,
            protocol: self.protocol.deep_view(),
            tls_config: self.tls_config,
            proxy_proto: self.proxy_proto,
            verify_upstream_tls: self.verify_upstream_tls,
        }
    }
}

/// The upstream at an address, with nothing else asked for.
pub open spec fn upstream_at(addr: Seq<char>) -> UpstreamView {
    UpstreamView {
        addr,
        protocol: None,
        tls_config: None,
        proxy_proto: ProxyProtoVersion::Off,
        verify_upstream_tls: true,
    }
}

impl Upstream {
    /// Create an upstream from an address string.
    ///
    /// `addr` accepts: `"8080"`, `"host:port"`, `"http://host:port"`, `"https://host:port"`.
    pub fn new(addr: &str) -> (r: Upstream)
        ensures
            r@ == upstream_at(addr@),
    {
        Upstream {
            addr: addr.to_owned(),
            protocol: None,
            tls_config: None,
            proxy_proto: ProxyProtoVersion::Off,
            verify_upstream_tls: true,
        }
    }

    /// Set the upstream protocol.
    pub fn protocol(self, proto: &str) -> (r: Upstream)
        ensures
            r@ == (UpstreamView { protocol: Some(proto@), ..self@ }),
    {
        Upstream { protocol: Some(proto.to_owned()), ..self }
    }

    /// Set a custom TLS configuration for upstream connections.
    pub fn tls_config(self, cfg: rustls::ClientConfig) -> (r: Upstream)
        ensures
            r@ == (UpstreamView { tls_config: Some(cfg), ..self@ }),
    {
        Upstream { tls_config: Some(cfg), ..self }
    }

    /// Set the PROXY protocol version.
    pub fn proxy_proto(self, version: ProxyProtoVersion) -> (r: Upstream)
        ensures
            r@ == (UpstreamView { proxy_proto: version, ..self@ }),
    {
        Upstream { proxy_proto: version, ..self }
    }

    /// Set whether to verify the TLS certificates of the upstream.
    pub fn verify_upstream_tls(self, verify: bool) -> (r: Upstream)
        ensures
            r@ == (UpstreamView { verify_upstream_tls: verify, ..self@ }),
    {
        Upstream { verify_upstream_tls: verify, ..self }
    }

    /// The upstream address string.
    pub fn addr(&self) -> (r: &str)
        ensures
            r@ == self@.addr,
    {
        self.addr.as_str()
    }
}

/// An upstream of which only the address was given asks for no protocol, no TLS configuration and no
/// PROXY protocol, and is verified.
pub proof fn upstream_at_an_address_has_the_defaults(u: Upstream, addr: Seq<char>)
    requires
        u@ == upstream_at(addr),
    ensures
        u.addr@ == addr,
        u.protocol is None && u.tls_config is None,
        u.proxy_proto == ProxyProtoVersion::Off,
        u.verify_upstream_tls,
{
}

/// An upstream is what was set on it.
pub proof fn upstream_is_what_was_set(u: Upstream)
    ensures
        u@.addr == u.addr@,
        u.protocol matches Some(p) ==> u@.protocol == Some(p@),
        u.protocol is None ==> u@.protocol is None,
        u@.tls_config == u.tls_config,
        u@.proxy_proto == u.proxy_proto,
        u@.verify_upstream_tls == u.verify_upstream_tls,
{
}

/// Setting something on an upstream sets that, and nothing else.
pub proof fn upstream_is_set_one_thing_at_a_time(
    text: &str,
    new: Upstream,
    u: Upstream,
    with_protocol: Upstream,
    version: ProxyProtoVersion,
    with_proxy: Upstream,
    verify: bool,
    with_verify: Upstream,
)
    requires
        call_ensures(Upstream::new, (text,), new),
        call_ensures(Upstream::protocol, (u, text), with_protocol),
        call_ensures(Upstream::proxy_proto, (u, version), with_proxy),
        call_ensures(Upstream::verify_upstream_tls, (u, verify), with_verify),
    ensures
        new.addr@ == text@ && new.protocol is None && new.verify_upstream_tls,
        with_protocol@ == (UpstreamView { protocol: Some(text@), ..u@ }),
        with_proxy@ == (UpstreamView { proxy_proto: version, ..u@ }),
        with_verify@ == (UpstreamView { verify_upstream_tls: verify, ..u@ }),
{
}

} // verus!
