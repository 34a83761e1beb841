//! Endpoint forwarder: auto-proxy connections to an upstream.
use vstd::prelude::*;
use crate::error::Error;
use crate::listener::{NgrokAddr, NgrokStream};
use crate::upstream::ProxyProtoVersion;
use crate::urls::{Url, UrlView};

verus! {

/// An auto-proxy handle that forwards connections from an ngrok endpoint to an upstream.
#[derive(Debug)]
pub struct EndpointForwarder {
    /// The public URL.
    pub url: Url,
    /// The endpoint ID.
    pub id: String,
    /// The upstream URL.
    pub upstream_url: Url,
    /// The upstream protocol.
    pub upstream_protocol: Option<String>,
    /// The PROXY protocol version.
    pub proxy_proto: ProxyProtoVersion,
}

/// A forwarder, as mathematical values.
pub struct ForwarderView {
    /// The public URL.
    pub url: UrlView,
    /// The endpoint ID.
    pub id: Seq<char>,
    /// The upstream URL.
    pub upstream_url: UrlView,
    /// The upstream protocol.
    pub upstream_protocol: Option<Seq<char>>,
    /// The PROXY protocol version.
    pub proxy_proto: ProxyProtoVersion,
}

impl View for EndpointForwarder {
    type V = ForwarderView;

    open spec fn view(&self) -> ForwarderView {
        ForwarderView {
            url: self.url@,
            id: self.id@,
            upstream_url: self.upstream_url@,
            upstream_protocol: self.upstream_protocol.deep_view(),
            proxy_proto: self.proxy_proto,
        }
    }
}

impl EndpointForwarder {
    /// The public URL assigned by ngrok cloud.
    pub fn url(&self) -> (r: &Url)
        ensures
            r@ == self@.url,
    {
        &self.url
    }

    /// The endpoint ID.
    pub fn id(&self) -> (r: &str)
        ensures
            r@ == self@.id,
    {
        self.id.as_str()
    }

    /// The upstream URL.
    pub fn upstream_url(&self) -> (r: &Url)
        ensures
            r@ == self@.upstream_url,
    {
        &self.upstream_url
    }

    /// The upstream protocol, if set.
    pub fn upstream_protocol(&self) -> (r: Option<&str>)
        ensures
            match r {
                Some(p) => self@.upstream_protocol == Some(p@),
                None => self@.upstream_protocol is None,
            },
    {
        match &self.upstream_protocol {
            Some(p) => Some(p.as_str()),
            None => None,
        }
    }

    /// The PROXY protocol version.
    pub fn proxy_protocol(&self) -> (r: ProxyProtoVersion)
        ensures
            r == self@.proxy_proto,
    {
        self.proxy_proto
    }
}

/// One round of the forwarding loop: an accepted connection is proxied to the upstream address;
/// when none can be accepted any more, the loop ends.
pub fn spawn_forward_loop(
    accepted: Result<(NgrokStream, NgrokAddr), Error>,
    upstream_addr: &str,
) -> (r: Option<(NgrokStream, String)>)
    ensures
        match accepted {
            Ok((stream, _)) => r matches Some((s, addr)) && s == stream && addr@ == upstream_addr@,
            Err(_) => r is None,
        },
{
    match accepted {
        Ok((stream, _addr)) => Some((stream, upstream_addr.to_owned())),
        Err(_) => None,
    }
}

/// A forwarder is what it holds, part by part.
pub proof fn forwarder_is_what_it_holds(f: EndpointForwarder)
    ensures
        f@.url == f.url@ && f@.id == f.id@ && f@.upstream_url == f.upstream_url@,
        f.upstream_protocol matches Some(p) ==> f@.upstream_protocol == Some(p@),
        f.upstream_protocol is None ==> f@.upstream_protocol is None,
        f@.proxy_proto == f.proxy_proto,
{
}

/// Every connection that is accepted is proxied to the upstream of the forwarder, as it is; the first
/// that cannot be accepted ends the loop.
pub proof fn accepted_connections_are_proxied(
    accepted: Result<(NgrokStream, NgrokAddr), Error>,
    upstream_addr: &str,
    r: Option<(NgrokStream, String)>,
)
    requires
        call_ensures(spawn_forward_loop, (accepted, upstream_addr), r),
    ensures
        r is Some <==> accepted is Ok,
        r matches Some((stream, to)) ==> to@ == upstream_addr@ && stream == accepted->Ok_0.0,
{
}

} // verus!
