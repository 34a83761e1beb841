//! Functional options for configuring endpoints.
use vstd::prelude::*;
use crate::text::{join, same_text, starts_with_text};
use crate::urls;
use crate::urls::{Url, UrlView};

verus! {

/// What a functional option sets.
#[derive(Debug)]
pub enum Setting {
    /// The URL.
    Url(String),
    /// Opaque, machine-readable metadata.
    Metadata(String),
    /// A human-readable description.
    Description(String),
    /// The traffic policy.
    TrafficPolicy(String),
    /// The bindings.
    Bindings(Vec<String>),
    /// Whether the endpoint supports connection pooling.
    PoolingEnabled(bool),
}

/// What a functional option sets, as mathematical values.
pub enum SettingView {
    /// The URL.
    Url(Seq<char>),
    /// Opaque, machine-readable metadata.
    Metadata(Seq<char>),
    /// A human-readable description.
    Description(Seq<char>),
    /// The traffic policy.
    TrafficPolicy(Seq<char>),
    /// The bindings.
    Bindings(Seq<Seq<char>>),
    /// Whether the endpoint supports connection pooling.
    PoolingEnabled(bool),
}

/// A functional option for configuring endpoints.
#[derive(Debug)]
pub struct EndpointOption {
    /// What it sets.
    pub apply: Setting,
}

impl View for EndpointOption {
    type V = SettingView;

    open spec fn view(&self) -> SettingView {
        match &self.apply {
            Setting::Url(s) => SettingView::Url(s@),
            Setting::Metadata(s) => SettingView::Metadata(s@),
            Setting::Description(s) => SettingView::Description(s@),
            Setting::TrafficPolicy(s) => SettingView::TrafficPolicy(s@),
            Setting::Bindings(v) => SettingView::Bindings(v.deep_view()),
            Setting::PoolingEnabled(b) => SettingView::PoolingEnabled(*b),
        }
    }
}

/// The options of an endpoint.
#[derive(Debug)]
pub struct EndpointOpts {
    /// The URL.
    pub url: Option<String>,
    /// Opaque, machine-readable metadata.
    pub metadata: Option<String>,
    /// A human-readable description.
    pub description: Option<String>,
    /// The traffic policy.
    pub traffic_policy: Option<String>,
    /// The bindings.
    pub bindings: Vec<String>,
    /// Whether the endpoint supports connection pooling.
    pub pooling_enabled: Option<bool>,
}

/// The options of an endpoint, as mathematical values.
pub struct EndpointOptsView {
    /// The URL.
    pub url: Option<Seq<char>>,
    /// Opaque, machine-readable metadata.
    pub metadata: Option<Seq<char>>,
    /// A human-readable description.
    pub description: Option<Seq<char>>,
    /// The traffic policy.
    pub traffic_policy: Option<Seq<char>>,
    /// The bindings.
    pub bindings: Seq<Seq<char>>,
    /// Whether the endpoint supports connection pooling.
    pub pooling_enabled: Option<bool>,
}

impl View for EndpointOpts {
    type V = EndpointOptsView;

    open spec fn view(&self) -> EndpointOptsView {
        EndpointOptsView {
            url: self.url.deep_view(),
            metadata: self.metadata.deep_view(),
            description: self.description.deep_view(),
            traffic_policy: self.traffic_policy.deep_view(),
            bindings: self.bindings.deep_view(),
            pooling_enabled: self.pooling_enabled,
        }
    }
}

/// Options of which none is set.
pub open spec fn unset_opts() -> EndpointOptsView {
    EndpointOptsView {
        url: None,
        metadata: None,
        description: None,
        traffic_policy: None,
        bindings: Seq::empty(),
        pooling_enabled: None,
    }
}

impl Default for EndpointOpts {
    fn default() -> (r: EndpointOpts)
        ensures
            r@ == unset_opts(),
    {
        let r = EndpointOpts {
            url: None,
            metadata: None,
            description: None,
            traffic_policy: None,
            bindings: Vec::new(),
            pooling_enabled: None,
        };
        assert(r.bindings.deep_view() =~= Seq::<Seq<char>>::empty());
        r
    }
}

impl Clone for EndpointOpts {
    fn clone(&self) -> (r: EndpointOpts)
        ensures
            r@ == self@,
    {
        let r = EndpointOpts {
            url: self.url.clone(),
            metadata: self.metadata.clone(),
            description: self.description.clone(),
            traffic_policy: self.traffic_policy.clone(),
            bindings: self.bindings.clone(),
            pooling_enabled: self.pooling_enabled,
        };
        assert(r.bindings.deep_view() =~= self.bindings.deep_view());
        r
    }
}

/// Sets the URL for the endpoint.
///
/// The URL determines the protocol and address of the endpoint. Examples:
/// - `"https://example.ngrok.app"` - HTTPS with a custom domain
/// - `"tcp://1.tcp.ngrok.io:12345"` - TCP with a specific address
/// - `"tls://example.ngrok.app"` - TLS endpoint
pub fn with_url(url: &str) -> (r: EndpointOption)
    ensures
        r@ == SettingView::Url(url@),
{
    EndpointOption { apply: Setting::Url(url.to_owned()) }
}

/// Sets opaque, machine-readable metadata for the endpoint.
pub fn with_metadata(meta: &str) -> (r: EndpointOption)
    ensures
        r@ == SettingView::Metadata(meta@),
{
    EndpointOption { apply: Setting::Metadata(meta.to_owned()) }
}

/// Sets a human-readable description for the endpoint.
pub fn with_description(desc: &str) -> (r: EndpointOption)
    ensures
        r@ == SettingView::Description(desc@),
{
    EndpointOption { apply: Setting::Description(desc.to_owned()) }
}

/// Sets the traffic policy for the endpoint.
///
/// See <https://ngrok.com/docs/traffic-policy/>
pub fn with_traffic_policy(policy: &str) -> (r: EndpointOption)
    ensures
        r@ == SettingView::TrafficPolicy(policy@),
{
    EndpointOption { apply: Setting::TrafficPolicy(policy.to_owned()) }
}

/// Sets the endpoint's bindings.
///
/// See <https://ngrok.com/docs/universal-gateway/bindings/>
pub fn with_bindings(bindings: Vec<String>) -> (r: EndpointOption)
    ensures
        r@ == SettingView::Bindings(bindings.deep_view()),
{
    EndpointOption { apply: Setting::Bindings(bindings) }
}

/// Controls whether the endpoint supports connection pooling.
///
/// See <https://ngrok.com/docs/universal-gateway/endpoint-pooling/>
pub fn with_pooling_enabled(pool: bool) -> (r: EndpointOption)
    ensures
        r@ == SettingView::PoolingEnabled(pool),
{
    EndpointOption { apply: Setting::PoolingEnabled(pool) }
}

/// The options after one more was applied.
pub open spec fn with_setting(o: EndpointOptsView, s: SettingView) -> EndpointOptsView {
    match s {
        SettingView::Url(url) => EndpointOptsView { url: Some(url), ..o },
        SettingView::Metadata(meta) => EndpointOptsView { metadata: Some(meta), ..o },
        SettingView::Description(desc) => EndpointOptsView { description: Some(desc), ..o },
        SettingView::TrafficPolicy(p) => EndpointOptsView { traffic_policy: Some(p), ..o },
        SettingView::Bindings(bindings) => EndpointOptsView { bindings, ..o },
        SettingView::PoolingEnabled(pool) => EndpointOptsView { pooling_enabled: Some(pool), ..o },
    }
}

/// The options that some settings make, applied in order to options of which none is set.
pub open spec fn applied(settings: Seq<SettingView>) -> EndpointOptsView
    decreases settings.len(),
{
    if settings.len() == 0 {
        unset_opts()
    } else {
        with_setting(applied(settings.drop_last()), settings.last())
    }
}

/// Whether a URL names its scheme. One without a host does so only where it begins with the scheme
/// of an endpoint and `://`, as `tcp://` does; a `host:port` parses as a URL as well, of which the
/// host is no scheme.
pub open spec fn names_scheme(u: UrlView) -> bool {
    u.host is Some || (is_endpoint_scheme(u.scheme) && (u.scheme + "://"@).is_prefix_of(u.text))
}

/// The scheme of an endpoint whose URL parses as given: that of the URL, and `https` where there is
/// no URL, it does not parse or it names no scheme.
pub open spec fn scheme_of(parsed: Option<UrlView>) -> Seq<char> {
    match parsed {
        Some(u) if names_scheme(u) => u.scheme,
        _ => "https"@,
    }
}

/// Whether endpoints of a scheme exist.
pub open spec fn is_endpoint_scheme(scheme: Seq<char>) -> bool {
    scheme == "http"@ || scheme == "https"@ || scheme == "tcp"@ || scheme == "tls"@
}

/// What the URL of an endpoint, if there is one, parses to.
pub open spec fn parsed_url(url: Option<Seq<char>>) -> Option<UrlView> {
    match url {
        Some(text) => urls::url_parse(text).ok(),
        None => None,
    }
}

impl EndpointOpts {
    /// The options that some functional options make, applied in order.
    pub fn apply_options(opts: Vec<EndpointOption>) -> (r: EndpointOpts)
        ensures
            r@ == applied(opts@.map_values(|o: EndpointOption| o@)),
    {
        let ghost all = opts@.map_values(|o: EndpointOption| o@);
        let mut r: EndpointOpts = EndpointOpts::default();
        assert(all.take(0) =~= Seq::<SettingView>::empty());
        let mut i: usize = 0;
        while i < opts.len()
            invariant
                0 <= i <= opts.len(),
                all == opts@.map_values(|o: EndpointOption| o@),
                r@ == applied(all.take(i as int)),
            decreases opts.len() - i,
        {
            assert(all.take(i + 1).drop_last() =~= all.take(i as int));
            assert(all.take(i + 1).last() == opts@[i as int]@);
            match &opts[i].apply {
                Setting::Url(url) => r.url = Some(url.clone()),
                Setting::Metadata(meta) => r.metadata = Some(meta.clone()),
                Setting::Description(desc) => r.description = Some(desc.clone()),
                Setting::TrafficPolicy(policy) => r.traffic_policy = Some(policy.clone()),
                Setting::Bindings(bindings) => {
                    r.bindings = bindings.clone();
                    assert(r.bindings.deep_view() =~= bindings.deep_view());
                },
                Setting::PoolingEnabled(pool) => r.pooling_enabled = Some(*pool),
            }
            i = i + 1;
        }
        assert(all.take(all.len() as int) =~= all);
        r
    }

    /// What the URL parses to.
    pub(crate) fn parse_url(&self) -> (r: Option<Url>)
        ensures
            urls::maybe(r) == parsed_url(self@.url),
    {
        match &self.url {
            Some(text) => match Url::parse(text.as_str()) {
                Ok(u) => Some(u),
                Err(_) => None,
            },
            None => None,
        }
    }

    /// Determine the URL scheme from the URL, defaulting to https.
    pub fn url_scheme(&self) -> (r: String)
        ensures
            r@ == scheme_of(parsed_url(self@.url)),
    {
        let parsed: Option<Url> = self.parse_url();
        url_scheme_of(&parsed).to_owned()
    }
}

/// Determine the URL scheme from what the URL parses to, defaulting to https.
pub fn url_scheme_of(parsed: &Option<Url>) -> (r: &str)
    ensures
        r@ == scheme_of(urls::maybe(*parsed)),
{
    match parsed {
        Some(u) => {
            let scheme: &str = u.scheme();
            let endpoint: bool = same_text(scheme, "http") || same_text(scheme, "https")
                || same_text(scheme, "tcp") || same_text(scheme, "tls");
            if u.host_str().is_some() || (endpoint && starts_with_text(
                u.as_str(),
                join(scheme, "://").as_str(),
            )) {
                scheme
            } else {
                "https"
            }
        },
        None => "https",
    }
}

/// A URL without a host, such as a `host:port`, means `https` where it does not begin with the
/// scheme of an endpoint and `://`.
pub proof fn url_without_a_scheme_is_https(u: UrlView)
    requires
        u.host is None,
        !is_endpoint_scheme(u.scheme) || !(u.scheme + "://"@).is_prefix_of(u.text),
    ensures
        scheme_of(Some(u)) == "https"@,
        is_endpoint_scheme(scheme_of(Some(u))),
{
}

/// A URL with a host means its scheme, whether there are endpoints of it or not.
pub proof fn url_with_a_host_means_its_scheme(u: UrlView)
    requires
        u.host is Some,
    ensures
        scheme_of(Some(u)) == u.scheme,
{
}

/// Whether two settings set the same option.
pub open spec fn same_option(a: SettingView, b: SettingView) -> bool {
    match (a, b) {
        (SettingView::Url(_), SettingView::Url(_)) => true,
        (SettingView::Metadata(_), SettingView::Metadata(_)) => true,
        (SettingView::Description(_), SettingView::Description(_)) => true,
        (SettingView::TrafficPolicy(_), SettingView::TrafficPolicy(_)) => true,
        (SettingView::Bindings(_), SettingView::Bindings(_)) => true,
        (SettingView::PoolingEnabled(_), SettingView::PoolingEnabled(_)) => true,
        _ => false,
    }
}

/// Whether the option that `s` sets has the value that `s` gives it.
pub open spec fn holds(o: EndpointOptsView, s: SettingView) -> bool {
    with_setting(o, s) == o
}

/// Whether the option that `s` sets has the same value in both.
pub open spec fn agree_on(a: EndpointOptsView, b: EndpointOptsView, s: SettingView) -> bool {
    match s {
        SettingView::Url(_) => a.url == b.url,
        SettingView::Metadata(_) => a.metadata == b.metadata,
        SettingView::Description(_) => a.description == b.description,
        SettingView::TrafficPolicy(_) => a.traffic_policy == b.traffic_policy,
        SettingView::Bindings(_) => a.bindings == b.bindings,
        SettingView::PoolingEnabled(_) => a.pooling_enabled == b.pooling_enabled,
    }
}

/// The last setting of an option is the one that counts, whatever comes before or after it for
/// other options.
pub proof fn last_setting_wins(settings: Seq<SettingView>, i: int)
    requires
        0 <= i < settings.len(),
        forall|j: int| i < j < settings.len() ==> !same_option(#[trigger] settings[j], settings[i]),
    ensures
        holds(applied(settings), settings[i]),
    decreases settings.len(),
{
    if i < settings.len() - 1 {
        let front = settings.drop_last();
        assert(front[i] == settings[i]);
        assert forall|j: int| i < j < front.len() implies !same_option(#[trigger] front[j], front[i]) by {
            assert(front[j] == settings[j]);
        }
        last_setting_wins(front, i);
        assert(!same_option(settings[settings.len() - 1], settings[i]));
    }
}

/// An option that no setting mentions stays as it was: unset.
pub proof fn unmentioned_option_stays_unset(settings: Seq<SettingView>, s: SettingView)
    requires
        forall|j: int| 0 <= j < settings.len() ==> !same_option(#[trigger] settings[j], s),
    ensures
        agree_on(applied(settings), unset_opts(), s),
    decreases settings.len(),
{
    if settings.len() > 0 {
        let front = settings.drop_last();
        assert forall|j: int| 0 <= j < front.len() implies !same_option(#[trigger] front[j], s) by {
            assert(front[j] == settings[j]);
        }
        unmentioned_option_stays_unset(front, s);
        assert(!same_option(settings[settings.len() - 1], s));
    }
}

/// Of several settings of one option the last one is used, and an option that none sets stays unset.
/// This holds for each option by itself, whatever is set besides.
pub proof fn last_setting_of_each_option_is_used(settings: Seq<SettingView>, i: int)
    requires
        0 <= i < settings.len(),
    ensures
        ({
            let o = applied(settings);
            &&& settings[i] matches SettingView::Url(t) ==> (forall|j: int|
                i < j < settings.len() ==> !((#[trigger] settings[j]) is Url)) ==> o.url == Some(t)
            &&& settings[i] matches SettingView::Metadata(t) ==> (forall|j: int|
                i < j < settings.len() ==> !((#[trigger] settings[j]) is Metadata)) ==> o.metadata
                == Some(t)
            &&& settings[i] matches SettingView::Description(t) ==> (forall|j: int|
                i < j < settings.len() ==> !((#[trigger] settings[j]) is Description))
                ==> o.description == Some(t)
            &&& settings[i] matches SettingView::TrafficPolicy(t) ==> (forall|j: int|
                i < j < settings.len() ==> !((#[trigger] settings[j]) is TrafficPolicy))
                ==> o.traffic_policy == Some(t)
            &&& settings[i] matches SettingView::Bindings(t) ==> (forall|j: int|
                i < j < settings.len() ==> !((#[trigger] settings[j]) is Bindings)) ==> o.bindings
                == t
            &&& settings[i] matches SettingView::PoolingEnabled(t) ==> (forall|j: int|
                i < j < settings.len() ==> !((#[trigger] settings[j]) is PoolingEnabled))
                ==> o.pooling_enabled == Some(t)
        }),
    decreases settings.len(),
{
    if i < settings.len() - 1 {
        let front = settings.drop_last();
        last_setting_of_each_option_is_used(front, i);
        assert(front[i] == settings[i]);
        assert(forall|j: int| i < j < front.len() ==> #[trigger] front[j] == settings[j]);
        assert(settings.last() == settings[settings.len() - 1]);
    }
}

/// An option that is not among the settings is unset.
pub proof fn option_that_is_not_set_is_unset(settings: Seq<SettingView>)
    ensures
        ({
            let o = applied(settings);
            let n = settings.len();
            &&& (forall|j: int| 0 <= j < n ==> !((#[trigger] settings[j]) is Url)) ==> o.url is None
            &&& (forall|j: int| 0 <= j < n ==> !((#[trigger] settings[j]) is Metadata))
                ==> o.metadata is None
            &&& (forall|j: int| 0 <= j < n ==> !((#[trigger] settings[j]) is Description))
                ==> o.description is None
            &&& (forall|j: int| 0 <= j < n ==> !((#[trigger] settings[j]) is TrafficPolicy))
                ==> o.traffic_policy is None
            &&& (forall|j: int| 0 <= j < n ==> !((#[trigger] settings[j]) is Bindings))
                ==> o.bindings.len() == 0
            &&& (forall|j: int| 0 <= j < n ==> !((#[trigger] settings[j]) is PoolingEnabled))
                ==> o.pooling_enabled is None
        }),
    decreases settings.len(),
{
    if settings.len() > 0 {
        let front = settings.drop_last();
        option_that_is_not_set_is_unset(front);
        assert(forall|j: int| 0 <= j < front.len() ==> #[trigger] front[j] == settings[j]);
        assert(settings.last() == settings[settings.len() - 1]);
    }
}

/// What a functional option sets is what it was made with.
pub proof fn option_sets_what_it_was_made_with(o: EndpointOption, t: Seq<char>, on: bool)
    ensures
        o@ == SettingView::Url(t) <==> (o.apply matches Setting::Url(s) && s@ == t),
        o@ == SettingView::Metadata(t) <==> (o.apply matches Setting::Metadata(s) && s@ == t),
        o@ == SettingView::Description(t) <==> (o.apply matches Setting::Description(s) && s@ == t),
        o@ == SettingView::TrafficPolicy(t) <==> (o.apply matches Setting::TrafficPolicy(s) && s@
            == t),
        o@ == SettingView::PoolingEnabled(on) <==> (o.apply matches Setting::PoolingEnabled(b) && b
            == on),
{
}

/// The scheme of an endpoint. A URL with a host has its own. One without a host has its own only
/// where it begins with `http://`, `https://`, `tcp://` or `tls://`; otherwise it is one of `https`,
/// as is an endpoint without a URL or with one that cannot be parsed.
pub proof fn scheme_is_that_of_the_url(u: UrlView)
    ensures
        scheme_of(None) == "https"@,
        u.host is Some ==> scheme_of(Some(u)) == u.scheme,
        u.host is None ==> ({
            let known = u.scheme == "http"@ || u.scheme == "https"@ || u.scheme == "tcp"@ || u.scheme
                == "tls"@;
            let written = (u.scheme + "://"@).is_prefix_of(u.text);
            scheme_of(Some(u)) == if known && written {
                u.scheme
            } else {
                "https"@
            }
        }),
{
}

/// There are endpoints of `http`, `https`, `tcp` and `tls`, and of no other scheme.
pub proof fn four_schemes_have_endpoints(scheme: Seq<char>)
    ensures
        is_endpoint_scheme(scheme) <==> scheme == "http"@ || scheme == "https"@ || scheme == "tcp"@
            || scheme == "tls"@,
{
}

/// The URL of an endpoint is what its text parses to.
pub proof fn endpoint_url_is_what_its_text_parses_to(text: Seq<char>)
    ensures
        parsed_url(None) is None,
        urls::url_parse(text) matches Ok(u) ==> parsed_url(Some(text)) == Some(u),
        urls::url_parse(text) is Err ==> parsed_url(Some(text)) is None,
{
}

/// Functional options are applied in order, so that for each option the last one that sets it is
/// used, and one that none sets is unset.
pub proof fn options_are_applied_in_order(opts: Vec<EndpointOption>, r: EndpointOpts, i: int)
    requires
        call_ensures(EndpointOpts::apply_options, (opts,), r),
        0 <= i < opts@.len(),
    ensures
        opts@[i].apply matches Setting::Url(t) ==> (forall|j: int|
            i < j < opts@.len() ==> !((#[trigger] opts@[j]).apply is Url)) ==> r@.url == Some(t@),
        opts@[i].apply matches Setting::Metadata(t) ==> (forall|j: int|
            i < j < opts@.len() ==> !((#[trigger] opts@[j]).apply is Metadata)) ==> r@.metadata
            == Some(t@),
        opts@[i].apply matches Setting::Description(t) ==> (forall|j: int|
            i < j < opts@.len() ==> !((#[trigger] opts@[j]).apply is Description))
            ==> r@.description == Some(t@),
        opts@[i].apply matches Setting::TrafficPolicy(t) ==> (forall|j: int|
            i < j < opts@.len() ==> !((#[trigger] opts@[j]).apply is TrafficPolicy))
            ==> r@.traffic_policy == Some(t@),
        opts@[i].apply matches Setting::Bindings(t) ==> (forall|j: int|
            i < j < opts@.len() ==> !((#[trigger] opts@[j]).apply is Bindings)) ==> r@.bindings
            == t.deep_view(),
        opts@[i].apply matches Setting::PoolingEnabled(t) ==> (forall|j: int|
            i < j < opts@.len() ==> !((#[trigger] opts@[j]).apply is PoolingEnabled))
            ==> r.pooling_enabled == Some(t),
{
    let settings = opts@.map_values(|o: EndpointOption| o@);
    last_setting_of_each_option_is_used(settings, i);
    assert(settings[i] == opts@[i]@);
    assert forall|j: int| 0 <= j < settings.len() implies {
        &&& (#[trigger] settings[j]) is Url ==> opts@[j].apply is Url
        &&& settings[j] is Metadata ==> opts@[j].apply is Metadata
        &&& settings[j] is Description ==> opts@[j].apply is Description
        &&& settings[j] is TrafficPolicy ==> opts@[j].apply is TrafficPolicy
        &&& settings[j] is Bindings ==> opts@[j].apply is Bindings
        &&& settings[j] is PoolingEnabled ==> opts@[j].apply is PoolingEnabled
    } by {
        assert(settings[j] == opts@[j]@);
    }
}

/// Without functional options nothing is set.
pub proof fn no_options_set_nothing(opts: Vec<EndpointOption>, r: EndpointOpts)
    requires
        call_ensures(EndpointOpts::apply_options, (opts,), r),
        opts@.len() == 0,
    ensures
        r.url is None && r.metadata is None && r.description is None && r.traffic_policy is None,
        r.pooling_enabled is None && r.bindings@.len() == 0,
{
    option_that_is_not_set_is_unset(opts@.map_values(|o: EndpointOption| o@));
    assert(r.bindings.deep_view().len() == r.bindings@.len());
}

/// The scheme of an endpoint is that of its URL where the URL names one, and `https` otherwise.
pub proof fn endpoint_scheme_is_that_of_its_url(parsed: &Option<Url>, r: &str)
    requires
        call_ensures(url_scheme_of, (parsed,), r),
    ensures
        *parsed is None ==> r@ == "https"@,
        *parsed matches Some(u) ==> (u.host is Some ==> r@ == u.scheme@),
        *parsed matches Some(u) ==> (u.host is None && (u.scheme@ == "tcp"@ || u.scheme@ == "tls"@
            || u.scheme@ == "http"@) && (u.scheme@ + "://"@).is_prefix_of(u.text@) ==> r@
            == u.scheme@),
        *parsed matches Some(u) ==> (u.host is None && !(u.scheme@ + "://"@).is_prefix_of(u.text@)
            ==> r@ == "https"@),
{
    if let Some(u) = *parsed {
        scheme_is_that_of_the_url(u@);
    }
}

} // verus!
