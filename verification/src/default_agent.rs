//! A default agent for the whole process.
//!
//! The application keeps the place in which the default agent stands; these functions say what
//! stands in it.
use vstd::prelude::*;
use crate::agent::agent::Agent;
use crate::endpoint_builder;
use crate::endpoint_builder::{
    EndpointForwardBuilder,
    EndpointListenBuilder,
    EndpointOptionsView,
};
use crate::ffi;
use crate::ffi::FfiEndpointOptions;
use crate::upstream;
use crate::upstream::Upstream;

verus! {

/// Options for configuring an endpoint, used with [`forward_to`].
#[derive(Debug)]
pub struct EndpointOptions {
    /// The URL for the endpoint.
    pub url: Option<String>,
    /// The traffic policy.
    pub traffic_policy: Option<String>,
    /// Opaque metadata.
    pub metadata: Option<String>,
    /// Human-readable description.
    pub description: Option<String>,
    /// Bindings.
    pub bindings: Vec<String>,
    /// Whether pooling is enabled.
    pub pooling_enabled: Option<bool>,
}

impl View for EndpointOptions {
    type V = EndpointOptionsView;

    /// The options of an endpoint builder on which exactly these were set.
    open spec fn view(&self) -> EndpointOptionsView {
        EndpointOptionsView {
            url: self.url.deep_view(),
            traffic_policy: self.traffic_policy.deep_view(),
            metadata: self.metadata.deep_view(),
            description: self.description.deep_view(),
            bindings: self.bindings.deep_view(),
            pooling_enabled: self.pooling_enabled,
            ..endpoint_builder::no_options()
        }
    }
}

impl Default for EndpointOptions {
    fn default() -> (r: EndpointOptions)
        ensures
            r@ == endpoint_builder::no_options(),
    {
        let r = EndpointOptions {
            url: None,
            traffic_policy: None,
            metadata: None,
            description: None,
            bindings: Vec::new(),
            pooling_enabled: None,
        };
        assert(r.bindings.deep_view() =~= Seq::<Seq<char>>::empty());
        r
    }
}

/// Whether `after` is what stands in the place of the default agent once it was asked for: the
/// agent that was there, or a new one with the authtoken of the environment.
pub open spec fn asked_for(
    before: Option<Agent>,
    authtoken: Option<Seq<char>>,
    after: Option<Agent>,
) -> bool {
    match before {
        Some(_) => after == before,
        None => after is Some && after->0@ == ffi::agent_with(authtoken),
    }
}

/// The process-global default agent: the one in its place, or a new one with the authtoken of the
/// `NGROK_AUTHTOKEN` environment variable, which is put there.
pub fn default_agent(slot: &mut Option<Agent>, authtoken: Option<String>) -> (r: &Agent)
    ensures
        asked_for(*old(slot), authtoken.deep_view(), *final(slot)),
        *final(slot) == Some(*r),
{
    if slot.is_none() {
        *slot = Some(Agent::builder().authtoken_from_env(authtoken).build().unwrap());
    }
    slot.as_ref().unwrap()
}

/// The default agent stays the same, however often it is asked for, until it is set or reset.
pub proof fn default_agent_is_kept(
    before: Option<Agent>,
    first_token: Option<Seq<char>>,
    first: Option<Agent>,
    second_token: Option<Seq<char>>,
    second: Option<Agent>,
)
    requires
        asked_for(before, first_token, first),
        asked_for(first, second_token, second),
    ensures
        first is Some,
        second == first,
        before is Some ==> first == before,
{
}

/// Set the process-global default agent.
pub fn set_default_agent(slot: &mut Option<Agent>, agent: Agent)
    ensures
        *final(slot) == Some(agent),
{
    *slot = Some(agent);
}

/// Reset the process-global default agent.
///
/// The next call to [`default_agent()`] will create a new default agent.
pub fn reset_default_agent(slot: &mut Option<Agent>)
    ensures
        *final(slot) is None,
{
    *slot = None;
}

/// Start building an endpoint listener using the default agent.
pub fn listen(agent: &Agent) -> (r: EndpointListenBuilder<'_>)
    ensures
        r.of() == agent@,
        r.options() == endpoint_builder::no_options(),
{
    EndpointListenBuilder::new(agent)
}

/// Start building an endpoint forwarder using the default agent.
pub fn forward(agent: &Agent, upstream: Upstream) -> (r: EndpointForwardBuilder<'_>)
    ensures
        r.of() == agent@,
        r.target() == upstream@,
        r.options() == endpoint_builder::no_options(),
{
    EndpointForwardBuilder::new(agent, upstream)
}

/// Forward to an address using the default agent with the given options: the builder that is to
/// be started.
pub fn forward_to<'a>(agent: &'a Agent, addr: &str, opts: EndpointOptions) -> (r:
    EndpointForwardBuilder<'a>)
    ensures
        r.of() == agent@,
        r.target() == upstream::upstream_at(addr@),
        r.options() == opts@,
{
    let opts = FfiEndpointOptions {
        url: opts.url,
        traffic_policy: opts.traffic_policy,
        metadata: opts.metadata,
        description: opts.description,
        bindings: opts.bindings,
        pooling_enabled: opts.pooling_enabled,
    };
    ffi::configure_forward(EndpointForwardBuilder::new(agent, Upstream::new(addr)), &opts)
}

/// Asking for the default agent where there is none makes one with the authtoken of the environment,
/// that connects by itself and is not connected yet.
pub proof fn new_default_agent_has_the_token(token: Option<Seq<char>>, after: Option<Agent>)
    requires
        asked_for(None, token, after),
    ensures
        after matches Some(agent) && agent@.session_builder.authtoken == token && agent@.auto_connect
            && agent@.session is None && agent@.endpoints.len() == 0,
{
}

/// The options for the default agent are those of an endpoint builder on which exactly these were
/// set.
pub proof fn default_agent_options_are_those_given(o: EndpointOptions)
    ensures
        o.url matches Some(t) ==> o@.url == Some(t@),
        o.url is None ==> o@.url is None,
        o.traffic_policy matches Some(t) ==> o@.traffic_policy == Some(t@),
        o.traffic_policy is None ==> o@.traffic_policy is None,
        o.metadata matches Some(t) ==> o@.metadata == Some(t@),
        o.metadata is None ==> o@.metadata is None,
        o.description matches Some(t) ==> o@.description == Some(t@),
        o.description is None ==> o@.description is None,
        o@.bindings.len() == o.bindings@.len(),
        forall|i: int| 0 <= i < o.bindings@.len() ==> #[trigger] o@.bindings[i] == o.bindings@[i]@,
        o@.pooling_enabled == o.pooling_enabled,
        o@.app_protocol is None && o@.verify_upstream_tls is None && o@.forwards_to is None,
{
}

/// Asking for the default agent gives the one in its place; where there is none, one with the
/// authtoken of the environment is put there and given. Setting it puts another in its place, and
/// resetting it leaves none.
pub proof fn default_agent_is_the_one_in_its_place(
    slot: &mut Option<Agent>,
    token: Option<String>,
    r: &Agent,
    other: &mut Option<Agent>,
    agent: Agent,
    third: &mut Option<Agent>,
)
    requires
        call_ensures(default_agent, (slot, token), r),
        call_ensures(set_default_agent, (other, agent), ()),
        call_ensures(reset_default_agent, (third,), ()),
    ensures
        *final(slot) == Some(*r),
        *old(slot) matches Some(a) ==> *r == a,
        *old(slot) is None ==> r@.session_builder.authtoken == token.deep_view() && r@.auto_connect
            && r@.session is None,
        *final(other) == Some(agent),
        *final(third) is None,
{
}

/// Endpoints of the default agent are built for that agent, to the upstream and with the options that
/// were given.
pub proof fn default_agent_builds_what_was_given(
    agent: &Agent,
    listens: EndpointListenBuilder,
    upstream: Upstream,
    forwards: EndpointForwardBuilder,
    addr: &str,
    opts: EndpointOptions,
    to: EndpointForwardBuilder,
)
    requires
        call_ensures(listen, (agent,), listens),
        call_ensures(forward, (agent, upstream), forwards),
        call_ensures(forward_to, (agent, addr, opts), to),
    ensures
        listens.of() == agent@ && forwards.of() == agent@ && to.of() == agent@,
        listens.options().url is None && listens.options().traffic_policy is None,
        forwards.target() == upstream@,
        forwards.options().url is None && forwards.options().traffic_policy is None,
        to.target().addr == addr@,
        to.options().url == opts.url.deep_view(),
        to.options().traffic_policy == opts.traffic_policy.deep_view(),
        to.options().metadata == opts.metadata.deep_view(),
        to.options().description == opts.description.deep_view(),
        to.options().bindings == opts.bindings.deep_view(),
        to.options().pooling_enabled == opts.pooling_enabled,
{
}

} // verus!
