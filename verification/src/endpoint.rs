//! Endpoint metadata types.
use vstd::prelude::*;
use crate::urls::{Url, UrlView};

verus! {

/// A non-owning snapshot of endpoint metadata.
#[derive(Debug)]
pub struct EndpointInfo {
    /// The endpoint ID.
    pub id: String,
    /// The endpoint name.
    pub name: String,
    /// The public URL.
    pub url: Url,
    /// The protocol (e.g., "https", "tcp").
    pub protocol: String,
    /// Whether this is a listener or forwarder endpoint.
    pub kind: EndpointKind,
}

/// The kind of an endpoint.
#[derive(Debug)]
#[non_exhaustive]
pub enum EndpointKind {
    /// A listener endpoint that delivers connections to application code.
    Listener,
    /// A forwarder endpoint that auto-proxies connections to an upstream.
    Forwarder {
        /// The upstream URL.
        upstream_url: Url,
    },
}

/// Endpoint metadata, as mathematical values.
pub struct EndpointInfoView {
    /// The endpoint ID.
    pub id: Seq<char>,
    /// The endpoint name.
    pub name: Seq<char>,
    /// The public URL.
    pub url: UrlView,
    /// The protocol.
    pub protocol: Seq<char>,
    /// The upstream URL of a forwarder; a listener has none.
    pub upstream_url: Option<UrlView>,
}

impl View for EndpointInfo {
    type V = EndpointInfoView;

    open spec fn view(&self) -> EndpointInfoView {
        EndpointInfoView {
            id: self.id@,
            name: self.name@,
            url: self.url@,
            protocol: self.protocol@,
            upstream_url: match self.kind {
                EndpointKind::Listener => None,
                EndpointKind::Forwarder { upstream_url } => Some(upstream_url@),
            },
        }
    }
}

impl Clone for EndpointKind {
    fn clone(&self) -> (r: EndpointKind)
        ensures
            match *self {
                EndpointKind::Listener => r is Listener,
                EndpointKind::Forwarder { upstream_url: u } => r is Forwarder && r->upstream_url@
                    == u@,
            },
    {
        match self {
            EndpointKind::Listener => EndpointKind::Listener,
            EndpointKind::Forwarder { upstream_url } => EndpointKind::Forwarder {
                upstream_url: upstream_url.clone(),
            },
        }
    }
}

impl Clone for EndpointInfo {
    fn clone(&self) -> (r: EndpointInfo)
        ensures
            r@ == self@,
    {
        EndpointInfo {
            id: self.id.clone(),
            name: self.name.clone(),
            url: self.url.clone(),
            protocol: self.protocol.clone(),
            kind: self.kind.clone(),
        }
    }
}

/// A listed endpoint is described by its own parts; it is a forwarder if and only if it names an
/// upstream.
pub proof fn endpoint_is_described_by_its_parts(e: EndpointInfo)
    ensures
        e@.id == e.id@ && e@.name == e.name@ && e@.url == e.url@ && e@.protocol == e.protocol@,
        e.kind is Listener ==> e@.upstream_url is None,
        e.kind matches EndpointKind::Forwarder { upstream_url } ==> e@.upstream_url == Some(
            upstream_url@,
        ),
{
}

} // verus!
