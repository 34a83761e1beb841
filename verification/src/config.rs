//! What is asked for when a tunnel is opened, and what a tunnel is once it is open.
use vstd::prelude::*;

verus! {

/// The kinds of tunnels.
#[derive(Debug, Clone, Copy, PartialEq, Eq, Structural)]
pub enum TunnelKind {
    /// HTTP or HTTPS.
    Http,
    /// TCP.
    Tcp,
    /// TLS.
    Tls,
}

/// The schemes of an HTTP tunnel.
#[derive(Debug, Clone, Copy, PartialEq, Eq, Structural)]
pub enum Scheme {
    /// Plain HTTP.
    HTTP,
    /// HTTP over TLS.
    HTTPS,
}

/// A tunnel that is to be opened. What is `None` is left to the service.
#[derive(Debug)]
pub struct TunnelBuilder {
    /// The kind of the tunnel.
    pub kind: TunnelKind,
    /// The domain, of an HTTP or TLS tunnel.
    pub domain: Option<String>,
    /// The remote address, of a TCP tunnel.
    pub remote_addr: Option<String>,
    /// The scheme, of an HTTP tunnel.
    pub scheme: Option<Scheme>,
    /// Opaque metadata.
    pub metadata: Option<String>,
    /// The traffic policy.
    pub traffic_policy: Option<String>,
    /// Whether pooling is enabled.
    pub pooling_enabled: Option<bool>,
    /// The binding. There is at most one.
    pub binding: Option<String>,
    /// The application protocol, of an HTTP tunnel.
    pub app_protocol: Option<String>,
    /// The forwarding target description.
    pub forwards_to: Option<String>,
    /// Whether to verify the TLS certificates of the upstream.
    pub verify_upstream_tls: Option<bool>,
}

/// A tunnel that is to be opened, as mathematical values.
pub struct TunnelBuilderView {
    /// The kind of the tunnel.
    pub kind: TunnelKind,
    /// The domain.
    pub domain: Option<Seq<char>>,
    /// The remote address.
    pub remote_addr: Option<Seq<char>>,
    /// The scheme.
    pub scheme: Option<Scheme>,
    /// Opaque metadata.
    pub metadata: Option<Seq<char>>,
    /// The traffic policy.
    pub traffic_policy: Option<Seq<char>>,
    /// Whether pooling is enabled.
    pub pooling_enabled: Option<bool>,
    /// The binding.
    pub binding: Option<Seq<char>>,
    /// The application protocol.
    pub app_protocol: Option<Seq<char>>,
    /// The forwarding target description.
    pub forwards_to: Option<Seq<char>>,
    /// Whether to verify the TLS certificates of the upstream.
    pub verify_upstream_tls: Option<bool>,
}

impl View for TunnelBuilder {
    type V = TunnelBuilderView;

    open spec fn view(&self) -> TunnelBuilderView {
        TunnelBuilderView {
            kind: self.kind,
            domain: self.domain.deep_view(),
            remote_addr: self.remote_addr.deep_view(),
            scheme: self.scheme,
            metadata: self.metadata.deep_view(),
            traffic_policy: self.traffic_policy.deep_view(),
            pooling_enabled: self.pooling_enabled,
            binding: self.binding.deep_view(),
            app_protocol: self.app_protocol.deep_view(),
            forwards_to: self.forwards_to.deep_view(),
            verify_upstream_tls: self.verify_upstream_tls,
        }
    }
}

/// A tunnel of a kind with nothing asked for.
pub open spec fn plain_tunnel(kind: TunnelKind) -> TunnelBuilderView {
    TunnelBuilderView {
        kind,
        domain: None,
        remote_addr: None,
        scheme: None,
        metadata: None,
        traffic_policy: None,
        pooling_enabled: None,
        binding: None,
        app_protocol: None,
        forwards_to: None,
        verify_upstream_tls: None,
    }
}

impl TunnelBuilder {
    /// A tunnel of a kind with nothing asked for.
    pub fn new(kind: TunnelKind) -> (r: TunnelBuilder)
        ensures
            r@ == plain_tunnel(kind),
    {
        TunnelBuilder {
            kind,
            domain: None,
            remote_addr: None,
            scheme: None,
            metadata: None,
            traffic_policy: None,
            pooling_enabled: None,
            binding: None,
            app_protocol: None,
            forwards_to: None,
            verify_upstream_tls: None,
        }
    }
}

/// The text that was set last: the new one, if there is one, or the one from before.
pub open spec fn set_over(before: Option<Seq<char>>, new: Option<Seq<char>>) -> Option<Seq<char>> {
    match new {
        Some(t) => Some(t),
        None => before,
    }
}

/// The switch that was set last: the new one, if there is one, or the one from before.
pub open spec fn switch_over(before: Option<bool>, new: Option<bool>) -> Option<bool> {
    match new {
        Some(b) => Some(b),
        None => before,
    }
}

/// The first of some texts.
pub open spec fn first_of(texts: Seq<Seq<char>>) -> Option<Seq<char>> {
    if texts.len() > 0 {
        Some(texts[0])
    } else {
        None
    }
}

/// Set a text, if there is one.
pub(crate) fn set_text(field: &mut Option<String>, new: &Option<String>)
    ensures
        final(field).deep_view() == set_over(old(field).deep_view(), new.deep_view()),
{
    if let Some(t) = new {
        *field = Some(t.clone());
    }
}

/// Set a switch, if it was set.
pub(crate) fn set_switch(field: &mut Option<bool>, new: Option<bool>)
    ensures
        *final(field) == switch_over(*old(field), new),
{
    if let Some(b) = new {
        *field = Some(b);
    }
}

/// Set a text to the first of some, if there are any.
pub(crate) fn set_first(field: &mut Option<String>, texts: &Vec<String>)
    ensures
        final(field).deep_view() == set_over(old(field).deep_view(), first_of(texts.deep_view())),
{
    if texts.len() > 0 {
        *field = Some(texts[0].clone());
    }
}

/// A tunnel that is open.
#[derive(Debug)]
pub struct Tunnel {
    /// The endpoint's unique ID.
    pub id: String,
    /// The endpoint's URL.
    pub url: String,
    /// The endpoint's protocol.
    pub proto: String,
    /// The endpoint's metadata.
    pub metadata: String,
}

/// A tunnel of which nothing was asked for leaves everything but its kind to the service.
pub proof fn plain_tunnel_asks_for_nothing(kind: TunnelKind, b: TunnelBuilder)
    requires
        b@ == plain_tunnel(kind),
    ensures
        b.kind == kind,
        b.domain is None && b.remote_addr is None && b.scheme is None,
        b.metadata is None && b.traffic_policy is None && b.pooling_enabled is None,
        b.binding is None && b.app_protocol is None && b.forwards_to is None,
        b.verify_upstream_tls is None,
{
}

/// A value that is set takes the place of any before it; where none is set the one before stays.
pub proof fn set_value_replaces(
    before: Option<Seq<char>>,
    text: Seq<char>,
    was_on: Option<bool>,
    on: bool,
    texts: Seq<Seq<char>>,
)
    ensures
        set_over(before, Some(text)) == Some(text),
        set_over(before, None) == before,
        switch_over(was_on, Some(on)) == Some(on),
        switch_over(was_on, None) == was_on,
        first_of(seq![text] + texts) == Some(text),
        first_of(Seq::empty()) is None,
{
}

} // verus!
