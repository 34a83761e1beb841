//! Endpoint configuration options.
use vstd::prelude::*;

verus! {

/// Options for creating a new ngrok endpoint.
///
/// Build using `EndpointOptions::builder()` or use `Default::default()` for
/// an ephemeral endpoint with all defaults.
#[derive(Debug)]
pub struct EndpointOptions {
    /// The full URL for the endpoint (scheme determines protocol).
    pub url: Option<String>,
    /// The endpoint name.
    pub name: Option<String>,
    /// A human-readable description.
    pub description: Option<String>,
    /// User-defined metadata.
    pub metadata: Option<String>,
    /// YAML or JSON traffic policy string.
    pub traffic_policy: Option<String>,
    /// Agent-side TLS termination config.
    pub agent_tls_termination: Option<rustls::ServerConfig>,
    /// Whether connection pooling is enabled.
    pub pooling_enabled: bool,
    /// Bindings.
    pub bindings: Vec<String>,
}

/// Endpoint options, as mathematical values.
pub struct EndpointOptionsView {
    /// The full URL for the endpoint.
    pub url: Option<Seq<char>>,
    /// The endpoint name.
    pub name: Option<Seq<char>>,
    /// A human-readable description.
    pub description: Option<Seq<char>>,
    /// User-defined metadata.
    pub metadata: Option<Seq<char>>,
    /// YAML or JSON traffic policy string.
    pub traffic_policy: Option<Seq<char>>,
    /// Agent-side TLS termination config.
    pub agent_tls_termination: Option<rustls::ServerConfig>,
    /// Whether connection pooling is enabled.
    pub pooling_enabled: bool,
    /// Bindings.
    pub bindings: Seq<Seq<char>>,
}

impl View for EndpointOptions {
    type V = EndpointOptionsView;

    open spec fn view(&self) -> EndpointOptionsView {
        EndpointOptionsView {
            url: self.url.deep_view(),
            name: self.name.deep_view(),
            description: self.description.deep_view(),
            metadata: self.metadata.deep_view(),
            traffic_policy: self.traffic_policy.deep_view(),
            agent_tls_termination: self.agent_tls_termination,
            pooling_enabled: self.pooling_enabled,
            bindings: self.bindings.deep_view(),
        }
    }
}

/// The options of an ephemeral endpoint: nothing is asked for.
pub open spec fn default_options() -> EndpointOptionsView {
    EndpointOptionsView {
        url: None,
        name: None,
        description: None,
        metadata: None,
        traffic_policy: None,
        agent_tls_termination: None,
        pooling_enabled: false,
        bindings: Seq::empty(),
    }
}

impl Default for EndpointOptions {
    fn default() -> (r: EndpointOptions)
        ensures
            r@ == default_options(),
    {
        let r = EndpointOptions {
            url: None,
            name: None,
            description: None,
            metadata: None,
            traffic_policy: None,
            agent_tls_termination: None,
            pooling_enabled: false,
            bindings: Vec::new(),
        };
        assert(r.bindings.deep_view() =~= Seq::<Seq<char>>::empty());
        r
    }
}

/// `rustls::ServerConfig::clone`. Nothing is stated of the copy, of which nothing is read.
pub assume_specification [<rustls::ServerConfig as Clone>::clone](c: &rustls::ServerConfig) -> (r:
    rustls::ServerConfig)
;

impl Clone for EndpointOptions {
    fn clone(&self) -> (r: EndpointOptions)
        ensures
            r@ == (EndpointOptionsView {
                agent_tls_termination: r@.agent_tls_termination,
                ..self@
            }),
            r@.agent_tls_termination is Some == self@.agent_tls_termination is Some,
    {
        let r = EndpointOptions {
            url: self.url.clone(),
            name: self.name.clone(),
            description: self.description.clone(),
            metadata: self.metadata.clone(),
            traffic_policy: self.traffic_policy.clone(),
            agent_tls_termination: match &self.agent_tls_termination {
                Some(cfg) => Some(cfg.clone()),
                None => None,
            },
            pooling_enabled: self.pooling_enabled,
            bindings: self.bindings.clone(),
        };
        assert(r.bindings.deep_view() =~= self.bindings.deep_view());
        r
    }
}

impl EndpointOptions {
    /// Create a new builder.
    pub fn builder() -> (r: EndpointOptionsBuilder)
        ensures
            r@ == default_options(),
    {
        EndpointOptionsBuilder::default()
    }
}

/// Builder for `EndpointOptions`.
#[derive(Debug)]
pub struct EndpointOptionsBuilder {
    inner: EndpointOptions,
}

impl View for EndpointOptionsBuilder {
    type V = EndpointOptionsView;

    closed spec fn view(&self) -> EndpointOptionsView {
        self.inner@
    }
}

impl Default for EndpointOptionsBuilder {
    fn default() -> (r: EndpointOptionsBuilder)
        ensures
            r@ == default_options(),
    {
        EndpointOptionsBuilder { inner: EndpointOptions::default() }
    }
}

impl EndpointOptionsBuilder {
    /// Set the full URL (scheme determines protocol: https://, http://, tcp://, tls://).
    pub fn url(self, url: &str) -> (r: Self)
        ensures
            r@ == (EndpointOptionsView { url: Some(url@), ..self@ }),
    {
        EndpointOptionsBuilder { inner: EndpointOptions { url: Some(url.to_owned()), ..self.inner } }
    }

    /// Set the endpoint name.
    pub fn name(self, name: &str) -> (r: Self)
        ensures
            r@ == (EndpointOptionsView { name: Some(name@), ..self@ }),
    {
        EndpointOptionsBuilder { inner: EndpointOptions { name: Some(name.to_owned()), ..self.inner } }
    }

    /// Set the description.
    pub fn description(self, desc: &str) -> (r: Self)
        ensures
            r@ == (EndpointOptionsView { description: Some(desc@), ..self@ }),
    {
        EndpointOptionsBuilder { inner: EndpointOptions { description: Some(desc.to_owned()), ..self.inner } }
    }

    /// Set the metadata.
    pub fn metadata(self, meta: &str) -> (r: Self)
        ensures
            r@ == (EndpointOptionsView { metadata: Some(meta@), ..self@ }),
    {
        EndpointOptionsBuilder { inner: EndpointOptions { metadata: Some(meta.to_owned()), ..self.inner } }
    }

    /// Set a YAML or JSON traffic policy string evaluated at the ngrok edge.
    pub fn traffic_policy(self, policy: &str) -> (r: Self)
        ensures
            r@ == (EndpointOptionsView { traffic_policy: Some(policy@), ..self@ }),
    {
        EndpointOptionsBuilder { inner: EndpointOptions { traffic_policy: Some(policy.to_owned()), ..self.inner } }
    }

    /// Configure agent-side TLS termination.
    pub fn agent_tls_termination(self, cfg: rustls::ServerConfig) -> (r: Self)
        ensures
            r@ == (EndpointOptionsView { agent_tls_termination: Some(cfg), ..self@ }),
    {
        EndpointOptionsBuilder { inner: EndpointOptions { agent_tls_termination: Some(cfg), ..self.inner } }
    }

    /// Enable or disable connection pooling.
    pub fn pooling_enabled(self, pool: bool) -> (r: Self)
        ensures
            r@ == (EndpointOptionsView { pooling_enabled: pool, ..self@ }),
    {
        EndpointOptionsBuilder { inner: EndpointOptions { pooling_enabled: pool, ..self.inner } }
    }

    /// Set bindings.
    pub fn bindings(self, bindings: Vec<String>) -> (r: Self)
        ensures
            r@ == (EndpointOptionsView { bindings: bindings.deep_view(), ..self@ }),
    {
        EndpointOptionsBuilder { inner: EndpointOptions { bindings, ..self.inner } }
    }

    /// Build the `EndpointOptions`.
    pub fn build(self) -> (r: EndpointOptions)
        ensures
            r@ == self@,
    {
        self.inner
    }
}

/// The default options ask for nothing.
pub proof fn default_options_ask_for_nothing(o: EndpointOptions)
    requires
        o@ == default_options(),
    ensures
        o.url is None && o.name is None && o.description is None && o.metadata is None,
        o.traffic_policy is None && o.agent_tls_termination is None,
        !o.pooling_enabled,
        o.bindings@.len() == 0,
{
    assert(o.bindings.deep_view().len() == o.bindings@.len());
}

/// Options are what was set on them, one by one.
pub proof fn options_are_what_was_set(o: EndpointOptions)
    ensures
        o.url matches Some(t) ==> o@.url == Some(t@),
        o.url is None ==> o@.url is None,
        o.name matches Some(t) ==> o@.name == Some(t@),
        o.name is None ==> o@.name is None,
        o.description matches Some(t) ==> o@.description == Some(t@),
        o.description is None ==> o@.description is None,
        o.metadata matches Some(t) ==> o@.metadata == Some(t@),
        o.metadata is None ==> o@.metadata is None,
        o.traffic_policy matches Some(t) ==> o@.traffic_policy == Some(t@),
        o.traffic_policy is None ==> o@.traffic_policy is None,
        o@.agent_tls_termination == o.agent_tls_termination,
        o@.pooling_enabled == o.pooling_enabled,
        o@.bindings.len() == o.bindings@.len(),
        forall|i: int| 0 <= i < o.bindings@.len() ==> #[trigger] o@.bindings[i] == o.bindings@[i]@,
{
}

/// Setting something on a builder sets that, and nothing else; what is built is what was set.
pub proof fn options_builder_sets_one_thing(
    b: EndpointOptionsBuilder,
    text: &str,
    with_url: EndpointOptionsBuilder,
    with_name: EndpointOptionsBuilder,
    with_description: EndpointOptionsBuilder,
    with_metadata: EndpointOptionsBuilder,
    with_traffic_policy: EndpointOptionsBuilder,
    on: bool,
    with_pooling: EndpointOptionsBuilder,
    bindings: Vec<String>,
    with_bindings: EndpointOptionsBuilder,
    built: EndpointOptions,
)
    requires
        call_ensures(EndpointOptionsBuilder::url, (b, text), with_url),
        call_ensures(EndpointOptionsBuilder::name, (b, text), with_name),
        call_ensures(EndpointOptionsBuilder::description, (b, text), with_description),
        call_ensures(EndpointOptionsBuilder::metadata, (b, text), with_metadata),
        call_ensures(EndpointOptionsBuilder::traffic_policy, (b, text), with_traffic_policy),
        call_ensures(EndpointOptionsBuilder::pooling_enabled, (b, on), with_pooling),
        call_ensures(EndpointOptionsBuilder::bindings, (b, bindings), with_bindings),
        call_ensures(EndpointOptionsBuilder::build, (b,), built),
    ensures
        with_url@ == (EndpointOptionsView { url: Some(text@), ..b@ }),
        with_name@ == (EndpointOptionsView { name: Some(text@), ..b@ }),
        with_description@ == (EndpointOptionsView { description: Some(text@), ..b@ }),
        with_metadata@ == (EndpointOptionsView { metadata: Some(text@), ..b@ }),
        with_traffic_policy@ == (EndpointOptionsView { traffic_policy: Some(text@), ..b@ }),
        with_pooling@ == (EndpointOptionsView { pooling_enabled: on, ..b@ }),
        with_bindings@ == (EndpointOptionsView { bindings: bindings.deep_view(), ..b@ }),
        built@ == b@,
{
}

} // verus!
