//! Endpoint builders, the FFI wrappers and the default agent.
use ngrok::agent::agent::{Agent, ConnectError, Session};
use ngrok::config::{Tunnel, TunnelKind};
use ngrok::default_agent;
use ngrok::endpoint_builder::{parse_endpoint_url, EndpointForwardBuilder, EndpointListenBuilder};
use ngrok::error::NgrokError;
use ngrok::event::Event;
use ngrok::ffi::{FfiAgent, FfiEndpointOptions, FfiError, FfiUpstream};
use ngrok::Upstream;
use std::time::{Duration, Instant};

fn tunnel() -> Tunnel {
    Tunnel {
        id: "ep_1".into(),
        url: "https://a.ngrok.app".into(),
        proto: "https".into(),
        metadata: "meta".into(),
    }
}

fn agent(auto_connect: bool) -> Agent {
    Agent::builder().auto_connect(auto_connect).build().unwrap()
}

#[test]
fn test_event_debug() {
    let event = Event::AgentConnectSucceeded;
    let debug = format!("{:?}", event);
    assert!(debug.contains("AgentConnectSucceeded"));
}

#[test]
fn test_event_clone() {
    let event = Event::AgentHeartbeatReceived { latency: Duration::from_millis(42) };
    let cloned = event.clone();
    if let Event::AgentHeartbeatReceived { latency } = cloned {
        assert_eq!(latency.as_millis(), 42);
    } else {
        panic!("wrong variant");
    }
}

#[test]
fn test_ffi_error_from_ngrok_error() {
    let err = NgrokError::Api { code: Some("ERR_123".into()), message: "test".into() };
    let ffi_err = FfiError::from(err);
    assert_eq!(ffi_err.code.as_deref(), Some("ERR_123"));
    assert_eq!(ffi_err.message, "test");
}

#[test]
fn test_ffi_error_display() {
    let err = FfiError { code: Some("ERR_1".into()), message: "msg".into() };
    assert_eq!(err.to_string(), "ERR_1: msg");

    let err = FfiError { code: None, message: "msg".into() };
    assert_eq!(err.to_string(), "msg");
}

#[test]
fn test_ffi_endpoint_options_default() {
    let opts = FfiEndpointOptions::default();
    assert!(opts.url.is_none());
    assert!(opts.traffic_policy.is_none());
    assert!(opts.bindings.is_empty());
}

#[test]
fn test_ffi_upstream_default() {
    let up = FfiUpstream::default();
    assert!(up.addr.is_empty());
    assert!(up.verify_upstream_tls);
}

#[test]
fn test_ffi_agent_from_env() {
    let agent = FfiAgent::from_env(None);
    assert!(agent.is_ok());
    let agent = FfiAgent::from_env(Some("token".into())).ok().unwrap();
    assert_eq!(agent.inner.session_builder.authtoken.as_deref(), Some("token"));
}

#[test]
fn test_endpoint_options_default() {
    let opts = default_agent::EndpointOptions::default();
    assert!(opts.url.is_none());
    assert!(opts.traffic_policy.is_none());
    assert!(opts.metadata.is_none());
    assert!(opts.description.is_none());
    assert!(opts.bindings.is_empty());
    assert!(opts.pooling_enabled.is_none());
}

#[test]
fn endpoint_urls_are_taken_apart() {
    let none = parse_endpoint_url(None).unwrap();
    assert_eq!((none.scheme.as_str(), none.domain, none.addr), ("https", None, None));
    let domain = parse_endpoint_url(Some("a.ngrok.app")).unwrap();
    assert_eq!(domain.scheme, "https");
    assert_eq!(domain.domain.as_deref(), Some("a.ngrok.app"));
    assert_eq!(domain.addr, None);
    let port = parse_endpoint_url(Some("http://a.ngrok.app:81")).unwrap();
    assert_eq!(port.domain.as_deref(), Some("a.ngrok.app:81"));
    let tcp = parse_endpoint_url(Some("tcp://1.tcp.ngrok.io:12345")).unwrap();
    assert_eq!(tcp.scheme, "tcp");
    assert_eq!(tcp.domain, None);
    assert_eq!(tcp.addr.as_deref(), Some("1.tcp.ngrok.io:12345"));
    let bad = parse_endpoint_url(Some("http://")).unwrap_err();
    assert_eq!(bad.to_string(), "invalid URL http://: failed to parse URL");
}

#[test]
fn listeners_open_the_tunnel_of_their_url() {
    let agent = agent(true);
    let builder = EndpointListenBuilder::new(&agent)
        .url("tcp://a.b:1")
        .traffic_policy("tp")
        .metadata("m")
        .description("d")
        .bindings(vec!["first".into(), "second".into()])
        .pooling_enabled(true)
        .app_protocol("http2")
        .forwards_to("somewhere");
    let t = builder.tunnel().unwrap();
    assert_eq!(t.kind, TunnelKind::Tcp);
    assert_eq!(t.remote_addr.as_deref(), Some("a.b:1"));
    assert_eq!(t.domain, None);
    assert_eq!(t.traffic_policy.as_deref(), Some("tp"));
    assert_eq!(t.metadata.as_deref(), Some("m"));
    assert_eq!(t.binding.as_deref(), Some("first"));
    assert_eq!(t.pooling_enabled, Some(true));
    assert_eq!(t.app_protocol, None);
    assert_eq!(t.forwards_to.as_deref(), Some("somewhere"));
    assert_eq!(t.verify_upstream_tls, None);
    let listener = builder.start(Ok(tunnel())).unwrap();
    assert_eq!(listener.inner.id, "ep_1");
    assert_eq!(listener.traffic_policy, "tp");
    assert_eq!(listener.description, "d");
    assert_eq!(listener.bindings, ["first", "second"]);
    assert!(listener.pooling_enabled);

    let http = EndpointListenBuilder::new(&agent).url("a.b").app_protocol("http2").tunnel().unwrap();
    assert_eq!(http.kind, TunnelKind::Http);
    assert_eq!(http.domain.as_deref(), Some("a.b"));
    assert_eq!(http.app_protocol.as_deref(), Some("http2"));
    let tls = EndpointListenBuilder::new(&agent).url("tls://a.b").tunnel().unwrap();
    assert_eq!(tls.kind, TunnelKind::Tls);
    assert_eq!(tls.domain.as_deref(), Some("a.b"));
}

#[test]
fn listeners_that_cannot_start() {
    let agent_off = agent(false);
    let refused = EndpointListenBuilder::new(&agent_off).tunnel();
    assert!(matches!(refused, Err(NgrokError::NotConnected)));
    let mut connected = agent(false);
    connected.connect(Ok(Session { id: "s".into() }), Instant::now()).unwrap();
    assert!(EndpointListenBuilder::new(&connected).tunnel().is_ok());
    let ftp = EndpointListenBuilder::new(&connected).url("ftp://x").tunnel().unwrap_err();
    assert_eq!(ftp.to_string(), "unsupported URL scheme: ftp");
    let failed = EndpointListenBuilder::new(&connected).start(Err(NgrokError::NotConnected));
    assert_eq!(failed.unwrap_err().to_string(), "agent not connected");
}

#[test]
fn forwarders_describe_their_target() {
    let agent = agent(true);
    let upstream = Upstream::new("localhost:8080").protocol("http2").verify_upstream_tls(false);
    let builder = EndpointForwardBuilder::new(&agent, upstream).url("https://a.b");
    let (t, to) = builder.tunnel().unwrap();
    assert_eq!(t.kind, TunnelKind::Http);
    assert_eq!(t.forwards_to.as_deref(), Some("localhost:8080"));
    assert_eq!(t.verify_upstream_tls, Some(false));
    assert_eq!(to.as_str(), "tcp://localhost:8080");
    let port = EndpointForwardBuilder::new(&agent, Upstream::new("8080")).tunnel().unwrap();
    assert_eq!(port.1.as_str(), "tcp://localhost:8080");
    let forwarder = builder.start(Ok(tunnel())).unwrap();
    assert_eq!(forwarder.upstream_url, "localhost:8080");
    assert_eq!(forwarder.upstream_protocol.as_deref(), Some("http2"));
    assert_eq!(forwarder.traffic_policy, "");
    assert!(!forwarder.pooling_enabled);
}

#[test]
fn forwarder_errors_come_in_order() {
    let on = agent(true);
    let off = agent(false);
    let refused = EndpointForwardBuilder::new(&off, Upstream::new("http://")).tunnel();
    assert!(matches!(refused, Err(NgrokError::NotConnected)));
    let url = EndpointForwardBuilder::new(&on, Upstream::new("http://")).url("ftp://x").tunnel();
    assert_eq!(url.unwrap_err().to_string(), "invalid URL http://: invalid upstream URL");
    let addr = EndpointForwardBuilder::new(&on, Upstream::new("a b")).url("ftp://x").tunnel();
    assert_eq!(addr.unwrap_err().to_string(), "invalid URL a b: invalid upstream address");
    let scheme = EndpointForwardBuilder::new(&on, Upstream::new("a:1")).url("ftp://x").tunnel();
    assert_eq!(scheme.unwrap_err().to_string(), "unsupported URL scheme: ftp");
}

#[test]
fn ffi_agents_open_what_was_asked_for() {
    let ffi = FfiAgent::with_authtoken("token").ok().unwrap();
    assert_eq!(ffi.inner.session_builder.authtoken.as_deref(), Some("token"));
    let opts = FfiEndpointOptions {
        url: Some("tls://a.b".into()),
        traffic_policy: Some("tp".into()),
        metadata: Some("m".into()),
        description: Some("d".into()),
        bindings: vec!["x".into()],
        pooling_enabled: Some(true),
    };
    let t = ffi.listen_tunnel(&opts).unwrap();
    assert_eq!(t.kind, TunnelKind::Tls);
    assert_eq!(t.domain.as_deref(), Some("a.b"));
    assert_eq!(t.traffic_policy.as_deref(), Some("tp"));
    assert_eq!(t.binding.as_deref(), Some("x"));
    let listener = ffi.listen(&opts, Ok(tunnel())).unwrap();
    assert_eq!(listener.id(), "ep_1");
    assert_eq!(listener.url(), "https://a.ngrok.app");
    assert_eq!(listener.protocol(), "https");
    assert_eq!(listener.metadata(), "meta");
    let upstream = FfiUpstream { addr: "h:1".into(), ..FfiUpstream::default() };
    let (t, to) = ffi.forward_tunnel(&upstream, &opts).unwrap();
    assert_eq!(t.forwards_to.as_deref(), Some("h:1"));
    assert_eq!(t.verify_upstream_tls, Some(true));
    assert_eq!(to.as_str(), "tcp://h:1");
    let forwarder = ffi.forward(&upstream, &opts, Ok(tunnel())).unwrap();
    assert_eq!(forwarder.upstream_url(), "h:1");
    assert_eq!(forwarder.id(), "ep_1");
    assert_eq!(forwarder.url(), "https://a.ngrok.app");
    let forwarder = ffi.forward_to("h:2", &opts, Ok(tunnel())).unwrap();
    assert_eq!(forwarder.upstream_url(), "h:2");
    let bad = FfiEndpointOptions { url: Some("ftp://x".into()), ..FfiEndpointOptions::default() };
    let err = ffi.listen_tunnel(&bad).unwrap_err();
    assert_eq!(err.code, None);
    assert_eq!(err.message, "unsupported URL scheme: ftp");
    let api = NgrokError::Api { code: Some("E".into()), message: "m".into() };
    assert_eq!(ffi.listen(&opts, Err(api)).unwrap_err().to_string(), "E: m");
}

#[test]
fn the_default_agent_is_kept_until_reset() {
    let mut slot: Option<Agent> = None;
    let first = default_agent::default_agent(&mut slot, Some("env".into()));
    assert_eq!(first.session_builder.authtoken.as_deref(), Some("env"));
    assert!(slot.is_some());
    let kept = default_agent::default_agent(&mut slot, Some("other".into()));
    assert_eq!(kept.session_builder.authtoken.as_deref(), Some("env"));
    default_agent::set_default_agent(&mut slot, agent(false));
    assert!(!slot.as_ref().unwrap().auto_connect);
    default_agent::reset_default_agent(&mut slot);
    let fresh = default_agent::default_agent(&mut slot, None);
    assert!(fresh.auto_connect);
    assert_eq!(fresh.session_builder.authtoken, None);
}

#[test]
fn test_default_agent_in_async() {
    let mut slot: Option<Agent> = None;
    let _agent = default_agent::default_agent(&mut slot, None);
    assert!(_agent.auto_connect);
}

#[test]
fn the_default_agent_forwards_with_options() {
    let mut slot: Option<Agent> = None;
    let agent = default_agent::default_agent(&mut slot, None);
    assert!(default_agent::listen(agent).tunnel().is_ok());
    let (t, _) = default_agent::forward(agent, Upstream::new("a:1")).tunnel().unwrap();
    assert_eq!(t.forwards_to.as_deref(), Some("a:1"));
    let opts = default_agent::EndpointOptions {
        url: Some("tcp://a.b:2".into()),
        traffic_policy: Some("tp".into()),
        metadata: Some("m".into()),
        description: Some("d".into()),
        bindings: vec!["x".into()],
        pooling_enabled: Some(false),
    };
    let builder = default_agent::forward_to(agent, "http://c:3", opts);
    let (t, to) = builder.tunnel().unwrap();
    assert_eq!(t.kind, TunnelKind::Tcp);
    assert_eq!(t.remote_addr.as_deref(), Some("a.b:2"));
    assert_eq!(t.pooling_enabled, Some(false));
    assert_eq!(to.as_str(), "http://c:3/");
    let forwarder = builder.start(Ok(tunnel())).unwrap();
    assert_eq!(forwarder.description, "d");
}

#[test]
fn ffi_agents_connect_once() {
    let mut ffi = FfiAgent::with_authtoken("token").ok().unwrap();
    let refused = ffi.connect(Err(ConnectError { message: "no".into() }), Instant::now());
    assert_eq!(refused.unwrap_err().to_string(), "connection error: no");
    let calls = ffi.connect(Ok(Session { id: "s".into() }), Instant::now()).unwrap();
    assert!(calls.is_empty());
    let again = ffi.connect(Ok(Session { id: "t".into() }), Instant::now());
    assert_eq!(again.unwrap_err().message, "agent already connected");
}
