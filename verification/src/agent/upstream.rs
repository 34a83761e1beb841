//! Configuration for forwarding to an upstream service.
use vstd::prelude::*;
use crate::text;
use crate::text::{join, parse_port, same_text};
use crate::upstream::ProxyProtoVersion;
use crate::urls;
use crate::urls::{ParseError, Url, UrlView};

verus! {

/// Configuration for forwarding to an upstream service.
///
/// Created using [`Upstream::new`].
#[derive(Debug)]
pub struct Upstream {
    /// The upstream address.
    pub addr: String,
    /// The protocol to use when forwarding to the upstream.
    pub protocol: Option<String>,
    /// The PROXY protocol version to use when connecting to the upstream.
    pub proxy_proto: Option<ProxyProtoVersion>,
}

/// An upstream configuration, as mathematical values.
pub struct UpstreamView {
    /// The upstream address.
    pub addr: Seq<char>,
    /// The protocol to use when forwarding to the upstream.
    pub protocol: Option<Seq<char>>,
    /// The PROXY protocol version to use when connecting to the upstream.
    pub proxy_proto: Option<ProxyProtoVersion>,
}

impl View for Upstream {
    type V = UpstreamView;

    open spec fn view(&self) -> UpstreamView {
        UpstreamView {
            addr: self.addr@,
            protocol: self.protocol.deep_view(),
            proxy_proto: self.proxy_proto,
        }
    }
}

impl Clone for Upstream {
    fn clone(&self) -> (r: Upstream)
        ensures
            r@ == self@,
    {
        Upstream {
            addr: self.addr.clone(),
            protocol: self.protocol.clone(),
            proxy_proto: self.proxy_proto,
        }
    }
}

/// Where the URL of an upstream comes from.
#[derive(Debug)]
pub enum UpstreamUrl {
    /// The address is a URL.
    Given(Url),
    /// This text is to be parsed.
    Completed(String),
}

/// Whether an address with this scheme is taken as a URL.
pub open spec fn is_upstream_scheme(scheme: Seq<char>) -> bool {
    scheme == "http"@ || scheme == "https"@ || scheme == "tcp"@ || scheme == "tls"@ || scheme
        == "unix"@
}

/// The URL that an address stands for, given what it parses to as a URL: a port number is one of
/// `localhost`; an address with a recognized scheme is a URL; anything else is a host with or
/// without a port. A text that is still to be parsed is on the right.
pub open spec fn completed(addr: Seq<char>, parsed: Result<UrlView, Seq<char>>) -> Result<
    UrlView,
    Seq<char>,
> {
    if text::port_number(addr) is Some {
        Err("http://localhost:"@ + addr)
    } else if parsed is Ok && is_upstream_scheme(parsed->Ok_0.scheme) {
        parsed
    } else {
        Err("http://"@ + addr)
    }
}

/// What an address parses to as an upstream.
pub open spec fn upstream_parse(addr: Seq<char>) -> Result<UrlView, Seq<char>> {
    match completed(addr, urls::url_parse(addr)) {
        Ok(url) => Ok(url),
        Err(text) => urls::url_parse(text),
    }
}

impl Upstream {
    /// Creates a new upstream configuration with the given address.
    ///
    /// The address can be in various formats:
    /// - `"80"` - a port number for local services
    /// - `"localhost:8080"` - a host:port combination
    /// - `"http://localhost:8080"` - a full URL
    pub fn new(addr: &str) -> (r: Upstream)
        ensures
            r@ == (UpstreamView { addr: addr@, protocol: None, proxy_proto: None }),
    {
        Upstream { addr: addr.to_owned(), protocol: None, proxy_proto: None }
    }

    /// Sets the protocol to use when forwarding to the upstream.
    ///
    /// This is typically used to specify `"http2"` when communicating with an
    /// upstream HTTP/2 server.
    pub fn protocol(self, proto: &str) -> (r: Upstream)
        ensures
            r@ == (UpstreamView { protocol: Some(proto@), ..self@ }),
    {
        Upstream { protocol: Some(proto.to_owned()), ..self }
    }

    /// Sets the PROXY protocol version to use when connecting to the upstream.
    pub fn proxy_proto(self, proxy_proto: ProxyProtoVersion) -> (r: Upstream)
        ensures
            r@ == (UpstreamView { proxy_proto: Some(proxy_proto), ..self@ }),
    {
        Upstream { proxy_proto: Some(proxy_proto), ..self }
    }

    /// Returns the upstream address as a URL.
    ///
    /// If the address is just a port number, it will be prefixed with `http://localhost:`.
    /// If the address is a host:port, it will be prefixed with `http://`.
    pub fn to_url(&self) -> (r: Result<Url, ParseError>)
        ensures
            urls::outcome(r) == upstream_parse(self@.addr),
    {
        match self.complete(Url::parse(self.addr.as_str())) {
            UpstreamUrl::Given(url) => Ok(url),
            UpstreamUrl::Completed(text) => Url::parse(text.as_str()),
        }
    }

    /// Where the URL of the upstream comes from, given what its address parses to.
    pub fn complete(&self, parsed: Result<Url, ParseError>) -> (r: UpstreamUrl)
        ensures
            match completed(self@.addr, urls::outcome(parsed)) {
                Ok(url) => r matches UpstreamUrl::Given(u) && u@ == url,
                Err(text) => r matches UpstreamUrl::Completed(t) && t@ == text,
            },
    {
        if parse_port(self.addr.as_str()).is_some() {
            return UpstreamUrl::Completed(join("http://localhost:", self.addr.as_str()));
        }
        if let Ok(url) = parsed {
            if same_text(url.scheme(), "http") || same_text(url.scheme(), "https") || same_text(
                url.scheme(),
                "tcp",
            ) || same_text(url.scheme(), "tls") || same_text(url.scheme(), "unix") {
                return UpstreamUrl::Given(url);
            }
        }
        UpstreamUrl::Completed(join("http://", self.addr.as_str()))
    }
}

/// An address that is no port number and parses to a URL of HTTP, HTTPS, TCP, TLS or a Unix socket is
/// taken as exactly that URL, and no text is parsed in its place.
pub proof fn url_is_taken_as_it_is(
    upstream: Upstream,
    parsed: Result<Url, ParseError>,
    r: UpstreamUrl,
)
    requires
        parsed is Ok,
        text::port_number(upstream.addr@) is None,
        match completed(upstream@.addr, urls::outcome(parsed)) {
            Ok(url) => r matches UpstreamUrl::Given(u) && u@ == url,
            Err(text) => r matches UpstreamUrl::Completed(t) && t@ == text,
        },
    ensures
        ({
            let scheme = parsed->Ok_0.scheme@;
            let known = scheme == "http"@ || scheme == "https"@ || scheme == "tcp"@ || scheme
                == "tls"@ || scheme == "unix"@;
            &&& known ==> (r matches UpstreamUrl::Given(u) && u@ == parsed->Ok_0@)
            &&& !known ==> (r matches UpstreamUrl::Completed(t) && t@ == "http://"@
                + upstream.addr@)
        }),
{
}

/// A port number stands for that port of `localhost` over HTTP, whatever it parses to; an address
/// that is neither a port number nor a URL is a host over HTTP.
pub proof fn port_or_host_is_one_of_http(upstream: Upstream, parsed: Result<Url, ParseError>, r: UpstreamUrl)
    requires
        match completed(upstream@.addr, urls::outcome(parsed)) {
            Ok(url) => r matches UpstreamUrl::Given(u) && u@ == url,
            Err(text) => r matches UpstreamUrl::Completed(t) && t@ == text,
        },
    ensures
        text::port_number(upstream.addr@) is Some ==> (r matches UpstreamUrl::Completed(t) && t@
            == "http://localhost:"@ + upstream.addr@),
        text::port_number(upstream.addr@) is None && parsed is Err ==> (
        r matches UpstreamUrl::Completed(t) && t@ == "http://"@ + upstream.addr@),
{
}

/// What an upstream address parses to: the URL that it is itself, if its scheme is one of HTTP,
/// HTTPS, TCP, TLS or a Unix socket; otherwise what the text that it stands for parses to.
pub proof fn upstream_parses_to_what_it_stands_for(addr: Seq<char>)
    ensures
        text::port_number(addr) is Some ==> upstream_parse(addr) == urls::url_parse(
            "http://localhost:"@ + addr,
        ),
        text::port_number(addr) is None ==> match urls::url_parse(addr) {
            Ok(u) => if u.scheme == "http"@ || u.scheme == "https"@ || u.scheme == "tcp"@ || u.scheme
                == "tls"@ || u.scheme == "unix"@ {
                upstream_parse(addr) == Ok::<UrlView, Seq<char>>(u)
            } else {
                upstream_parse(addr) == urls::url_parse("http://"@ + addr)
            },
            Err(_) => upstream_parse(addr) == urls::url_parse("http://"@ + addr),
        },
{
}

/// An upstream is what was set on it.
pub proof fn upstream_is_what_was_set(u: Upstream)
    ensures
        u@.addr == u.addr@,
        u.protocol matches Some(p) ==> u@.protocol == Some(p@),
        u.protocol is None ==> u@.protocol is None,
        u@.proxy_proto == u.proxy_proto,
{
}

/// An upstream address stands for one URL: a port number for that port of `localhost` over HTTP; a
/// URL of HTTP, HTTPS, TCP, TLS or a Unix socket for exactly that URL; anything else for that host
/// over HTTP.
pub proof fn upstream_address_stands_for_one_url(
    upstream: &Upstream,
    parsed: Result<Url, ParseError>,
    r: UpstreamUrl,
)
    requires
        call_ensures(Upstream::complete, (upstream, parsed), r),
    ensures
        text::port_number(upstream.addr@) is Some ==> (r matches UpstreamUrl::Completed(t) && t@
            == "http://localhost:"@ + upstream.addr@),
        text::port_number(upstream.addr@) is None && (parsed matches Ok(u) && (u.scheme@ == "http"@
            || u.scheme@ == "https"@ || u.scheme@ == "tcp"@ || u.scheme@ == "tls"@ || u.scheme@
            == "unix"@)) ==> (r matches UpstreamUrl::Given(u) && u@ == parsed->Ok_0@),
        text::port_number(upstream.addr@) is None && !(parsed matches Ok(u) && (u.scheme@ == "http"@
            || u.scheme@ == "https"@ || u.scheme@ == "tcp"@ || u.scheme@ == "tls"@ || u.scheme@
            == "unix"@)) ==> (r matches UpstreamUrl::Completed(t) && t@ == "http://"@
            + upstream.addr@),
{
    if parsed is Ok && text::port_number(upstream.addr@) is None {
        url_is_taken_as_it_is(*upstream, parsed, r);
    } else {
        port_or_host_is_one_of_http(*upstream, parsed, r);
    }
}

/// The URL of an upstream is what its address parses to, where that is a URL of one of these schemes,
/// and otherwise what the text parses to that it stands for.
pub proof fn upstream_url_is_that_of_its_address(upstream: &Upstream, r: Result<Url, ParseError>)
    requires
        call_ensures(Upstream::to_url, (upstream,), r),
    ensures
        text::port_number(upstream.addr@) is Some ==> urls::outcome(r) == urls::url_parse(
            "http://localhost:"@ + upstream.addr@,
        ),
        text::port_number(upstream.addr@) is None ==> match urls::url_parse(upstream.addr@) {
            Ok(u) => if u.scheme == "http"@ || u.scheme == "https"@ || u.scheme == "tcp"@ || u.scheme
                == "tls"@ || u.scheme == "unix"@ {
                r matches Ok(x) && x@ == u
            } else {
                urls::outcome(r) == urls::url_parse("http://"@ + upstream.addr@)
            },
            Err(_) => urls::outcome(r) == urls::url_parse("http://"@ + upstream.addr@),
        },
{
    upstream_parses_to_what_it_stands_for(upstream.addr@);
}

/// Setting something on an upstream sets that, and nothing else.
pub proof fn upstream_is_set_one_thing_at_a_time(
    text: &str,
    new: Upstream,
    u: Upstream,
    with_protocol: Upstream,
    version: ProxyProtoVersion,
    with_proxy: Upstream,
)
    requires
        call_ensures(Upstream::new, (text,), new),
        call_ensures(Upstream::protocol, (u, text), with_protocol),
        call_ensures(Upstream::proxy_proto, (u, version), with_proxy),
    ensures
        new.addr@ == text@ && new.protocol is None && new.proxy_proto is None,
        with_protocol.addr@ == u.addr@ && with_protocol.proxy_proto == u.proxy_proto,
        with_protocol.protocol is Some && with_protocol.protocol->0@ == text@,
        with_proxy.addr@ == u.addr@ && with_proxy@.protocol == u@.protocol,
        with_proxy.proxy_proto == Some(version),
{
}

} // verus!
