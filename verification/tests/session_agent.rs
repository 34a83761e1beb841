//! The agent on top of sessions: its builder, options, upstreams and events.
use ngrok::agent::agent::{
    Agent,
    AgentError,
    ConnectError,
    Readiness,
    RpcError,
    Session,
};
use ngrok::agent::builder::{AgentBuildError, InvalidHeartbeatInterval, ProxyUnsupportedError};
use ngrok::agent::endpoint_options::{
    with_bindings,
    with_description,
    with_metadata,
    with_pooling_enabled,
    with_traffic_policy,
    with_url,
    EndpointOpts,
};
use ngrok::agent::events::{Event, EventHandler, EventType};
use ngrok::agent::upstream::{Upstream, UpstreamUrl};
use ngrok::config::{Scheme, Tunnel, TunnelKind};
use ngrok::events::HandlerId;
use ngrok::time::Span;
use std::time::Instant;

fn handler(slot: u64) -> EventHandler {
    HandlerId { slot }
}

fn tunnel(id: &str) -> Tunnel {
    Tunnel {
        id: id.into(),
        url: format!("https://{}.ngrok.app", id),
        proto: "https".into(),
        metadata: "meta".into(),
    }
}

#[test]
fn test_agent_builder_default() {
    let agent = Agent::builder().build().unwrap();
    assert!(agent.auto_connect);
    assert!(agent.event_handlers.is_empty());
}

#[test]
fn test_agent_builder_auto_connect_false() {
    let agent = Agent::builder().auto_connect(false).build().unwrap();
    assert!(!agent.auto_connect);
}

#[test]
fn test_agent_builder_with_event_handler() {
    let agent = Agent::builder().event_handler(handler(0)).build().unwrap();
    assert_eq!(1, agent.event_handlers.len());
}

#[test]
fn test_agent_builder_with_multiple_event_handlers() {
    let agent = Agent::builder()
        .event_handler(handler(0))
        .event_handler(handler(1))
        .build()
        .unwrap();
    assert_eq!(2, agent.event_handlers.len());
}

#[test]
fn test_agent_builder_with_metadata() {
    let _agent = Agent::builder().metadata("test-metadata").build().unwrap();
    assert_eq!(_agent.session_builder.metadata.as_deref(), Some("test-metadata"));
}

#[test]
fn test_agent_builder_with_authtoken() {
    let _agent = Agent::builder().authtoken("test-token").build().unwrap();
    assert_eq!(_agent.session_builder.authtoken.as_deref(), Some("test-token"));
}

#[test]
fn test_agent_builder_with_client_info() {
    let _agent = Agent::builder()
        .client_info("test-client", "1.0.0", Some("test comment"))
        .build()
        .unwrap();
    assert_eq!(_agent.session_builder.client_info[0].version, "1.0.0");
}

#[test]
fn refused_settings_are_reported() {
    let e = Agent::builder()
        .heartbeat_interval(Err(InvalidHeartbeatInterval { message: "too long".into() }))
        .err()
        .unwrap();
    assert_eq!(AgentBuildError::from(e).to_string(), "too long");
    let e = Agent::builder()
        .proxy_url(Err(ProxyUnsupportedError { message: "no proxy".into() }))
        .err()
        .unwrap();
    assert_eq!(AgentBuildError::from(e).to_string(), "no proxy");
    let agent = Agent::builder()
        .heartbeat_interval(Ok(Span::from_secs(3)))
        .ok()
        .unwrap()
        .server_addr(Ok("host:1".into()))
        .ok()
        .unwrap()
        .build()
        .unwrap();
    assert_eq!(agent.session_builder.heartbeat_interval, Some(Span::from_secs(3)));
    assert_eq!(agent.session_builder.server_addr.as_deref(), Some("host:1"));
}

#[test]
fn test_upstream_new() {
    let upstream = Upstream::new("http://localhost:8080");
    assert_eq!("http://localhost:8080", upstream.addr);
    assert!(upstream.protocol.is_none());
    assert!(upstream.proxy_proto.is_none());
}

#[test]
fn test_upstream_with_protocol() {
    let upstream = Upstream::new("http://localhost:8080").protocol("http2");
    assert_eq!(Some("http2".to_string()), upstream.protocol);
}

#[test]
fn test_upstream_to_url_full() {
    let upstream = Upstream::new("http://localhost:8080");
    let url = upstream.to_url().unwrap();
    assert_eq!("http", url.scheme());
    assert_eq!(Some("localhost"), url.host_str());
    assert_eq!(Some(8080), url.port());
}

#[test]
fn test_upstream_to_url_port_only() {
    let upstream = Upstream::new("8080");
    let url = upstream.to_url().unwrap();
    assert_eq!(Some("localhost"), url.host_str());
    assert_eq!(Some(8080), url.port());
}

#[test]
fn test_upstream_to_url_host_port() {
    let upstream = Upstream::new("example.com:8080");
    let url = upstream.to_url().unwrap();
    assert_eq!(Some("example.com"), url.host_str());
    assert_eq!(Some(8080), url.port());
}

#[test]
fn upstream_schemes_that_are_not_recognized_are_hosts() {
    assert_eq!(Upstream::new("unix:/tmp/s").to_url().unwrap().as_str(), "unix:/tmp/s");
    assert_eq!(Upstream::new("ftp://x").to_url().unwrap().host_str(), Some("ftp"));
    assert!(Upstream::new("").to_url().is_err());
    let given = ngrok::urls::Url::parse("ftp://x");
    let UpstreamUrl::Completed(text) = Upstream::new("ftp://x").complete(given) else {
        panic!("expected a text");
    };
    assert_eq!(text, "http://ftp://x");
}

#[test]
fn test_endpoint_option_with_url() {
    let opts = EndpointOpts::apply_options(vec![with_url("https://example.ngrok.app")]);
    assert_eq!(Some("https://example.ngrok.app".to_string()), opts.url);
}

#[test]
fn test_endpoint_option_with_metadata() {
    let opts = EndpointOpts::apply_options(vec![with_metadata("test-meta")]);
    assert_eq!(Some("test-meta".to_string()), opts.metadata);
}

#[test]
fn test_endpoint_option_with_description() {
    let opts = EndpointOpts::apply_options(vec![with_description("my endpoint")]);
    assert_eq!(Some("my endpoint".to_string()), opts.description);
}

#[test]
fn test_endpoint_option_with_traffic_policy() {
    let opts = EndpointOpts::apply_options(vec![with_traffic_policy(r#"{"on_http_request": []}"#)]);
    assert_eq!(Some(r#"{"on_http_request": []}"#.to_string()), opts.traffic_policy);
}

#[test]
fn test_endpoint_option_with_bindings() {
    let opts = EndpointOpts::apply_options(vec![with_bindings(vec!["public".to_string()])]);
    assert_eq!(vec!["public"], opts.bindings);
}

#[test]
fn test_endpoint_option_with_pooling_enabled() {
    let opts = EndpointOpts::apply_options(vec![with_pooling_enabled(true)]);
    assert_eq!(Some(true), opts.pooling_enabled);
}

#[test]
fn test_endpoint_options_combined() {
    let opts = EndpointOpts::apply_options(vec![
        with_url("https://example.ngrok.app"),
        with_metadata("test-meta"),
        with_description("my endpoint"),
        with_pooling_enabled(true),
    ]);
    assert_eq!(Some("https://example.ngrok.app".to_string()), opts.url);
    assert_eq!(Some("test-meta".to_string()), opts.metadata);
    assert_eq!(Some("my endpoint".to_string()), opts.description);
    assert_eq!(Some(true), opts.pooling_enabled);
}

#[test]
fn the_last_option_of_a_kind_wins() {
    let opts = EndpointOpts::apply_options(vec![
        with_metadata("first"),
        with_pooling_enabled(true),
        with_metadata("second"),
        with_pooling_enabled(false),
    ]);
    assert_eq!(opts.metadata.as_deref(), Some("second"));
    assert_eq!(opts.pooling_enabled, Some(false));
    assert_eq!(opts.url, None);
}

#[test]
fn test_endpoint_opts_url_scheme_default() {
    let opts = EndpointOpts::default();
    assert_eq!("https", opts.url_scheme());
}

#[test]
fn test_endpoint_opts_url_scheme_http() {
    let opts = EndpointOpts::apply_options(vec![with_url("http://example.ngrok.app")]);
    assert_eq!("http", opts.url_scheme());
}

#[test]
fn test_endpoint_opts_url_scheme_tcp() {
    let opts = EndpointOpts::apply_options(vec![with_url("tcp://1.tcp.ngrok.io:12345")]);
    assert_eq!("tcp", opts.url_scheme());
}

#[test]
fn test_endpoint_opts_url_scheme_tls() {
    let opts = EndpointOpts::apply_options(vec![with_url("tls://example.ngrok.app")]);
    assert_eq!("tls", opts.url_scheme());
}

#[test]
fn schemes_are_those_of_the_parsed_url() {
    let scheme = |url: &str| EndpointOpts::apply_options(vec![with_url(url)]).url_scheme();
    assert_eq!("http", scheme("HTTP://example.ngrok.app"));
    assert_eq!("tcp", scheme("Tcp://example.ngrok.app:1"));
    assert_eq!("https", scheme("https://x"));
    assert_eq!("ftp", scheme("ftp://x"));
    // What does not parse has no scheme.
    assert_eq!("https", scheme("example.ngrok.app"));
    // Nor has a name and a port, or another URL without a host.
    assert_eq!("https", scheme("example.ngrok.app:443"));
    assert_eq!("https", scheme("tcp:443"));
    assert_eq!("https", scheme("mailto:someone"));
    assert_eq!("tcp", scheme("tcp://"));
    assert_eq!("tls", scheme("tls://"));
    assert_eq!("https", scheme(""));
}

#[test]
fn schemes_without_endpoints_are_refused() {
    let mut agent = Agent::builder().build().unwrap();
    agent.connect(Ok(Session { id: "s".into() }), Instant::now()).unwrap();
    let listen = agent.listen_tunnel(vec![with_url("ftp://example.com")]);
    assert!(matches!(listen, Err(AgentError::UnsupportedScheme(s)) if s == "ftp"));
    let upstream = Upstream::new("8080");
    let forward = agent.forward_tunnel(&upstream, vec![with_url("ftp://example.com")]);
    assert!(matches!(forward, Err(AgentError::UnsupportedScheme(s)) if s == "ftp"));
    assert!(agent.endpoints().is_empty());
    let https = agent.listen_tunnel(vec![with_url("example.ngrok.app:443")]).unwrap();
    assert_eq!(https.kind, TunnelKind::Http);
    let tcp = agent.listen_tunnel(vec![with_url("TCP://1.tcp.ngrok.io:12345")]).unwrap();
    assert_eq!(tcp.kind, TunnelKind::Tcp);
}

#[test]
fn test_event_type_display() {
    assert_eq!("AgentConnectSucceeded", EventType::AgentConnectSucceeded.to_string());
    assert_eq!("AgentDisconnected", EventType::AgentDisconnected.to_string());
    assert_eq!("AgentHeartbeatReceived", EventType::AgentHeartbeatReceived.to_string());
}

#[test]
fn test_event_connect_succeeded() {
    let event = Event::AgentConnectSucceeded { timestamp: std::time::Instant::now() };
    assert_eq!(EventType::AgentConnectSucceeded, event.event_type());
}

#[test]
fn test_event_disconnected() {
    let event = Event::AgentDisconnected {
        timestamp: std::time::Instant::now(),
        error: Some("test error".to_string()),
    };
    assert_eq!(EventType::AgentDisconnected, event.event_type());
}

#[test]
fn test_event_heartbeat_received() {
    let at = std::time::Instant::now();
    let event = Event::AgentHeartbeatReceived {
        timestamp: at,
        latency: std::time::Duration::from_millis(50),
    };
    assert_eq!(EventType::AgentHeartbeatReceived, event.event_type());
    assert_eq!(event.timestamp(), at);
}

#[test]
fn test_agent_not_connected_error() {
    let agent = Agent::builder().auto_connect(false).build().unwrap();
    let result = agent.session();
    assert!(result.is_none());
    assert!(matches!(agent.ensure_connected(), Err(AgentError::NotConnected)));
    assert!(matches!(agent.listen_tunnel(vec![]), Err(AgentError::NotConnected)));
}

#[test]
fn test_agent_endpoints_empty() {
    let agent = Agent::builder().build().unwrap();
    let endpoints = agent.endpoints();
    assert!(endpoints.is_empty());
}

#[test]
fn test_agent_disconnect_when_not_connected() {
    let mut agent = Agent::builder().build().unwrap();
    // Should be a no-op, not an error
    let (result, calls) = agent.disconnect(Ok(()), Instant::now());
    assert!(result.is_ok());
    assert!(calls.is_empty());
}

#[test]
fn connecting_calls_every_handler_in_order() {
    let mut agent = Agent::builder()
        .event_handler(handler(7))
        .event_handler(handler(3))
        .build()
        .unwrap();
    assert!(matches!(agent.ensure_connected(), Ok(Readiness::Connect)));
    assert!(agent.check_not_connected().is_ok());
    let refused = agent.connect(Err(ConnectError { message: "no".into() }), Instant::now());
    assert_eq!(refused.unwrap_err().to_string(), "connection error: no");
    assert!(agent.session().is_none());
    let at = Instant::now();
    let calls = agent.connect(Ok(Session { id: "s1".into() }), at).unwrap();
    assert_eq!(calls.len(), 2);
    assert_eq!(calls[0].handler, handler(7));
    assert_eq!(calls[1].handler, handler(3));
    assert_eq!(calls[1].event.timestamp(), at);
    assert_eq!(agent.session().unwrap().id(), "s1");
    assert!(matches!(agent.ensure_connected(), Ok(Readiness::Ready)));
    let again = agent.connect(Ok(Session { id: "s2".into() }), at);
    assert!(matches!(again, Err(AgentError::AlreadyConnected)));
    assert!(agent.check_not_connected().is_err());
    assert_eq!(agent.session().unwrap().session().id, "s1");
}

#[test]
fn endpoints_are_listed_until_disconnect() {
    let mut agent = Agent::builder().build().unwrap();
    agent.connect(Ok(Session { id: "s".into() }), Instant::now()).unwrap();
    let listener = agent.listen(TunnelKind::Tcp, Ok(tunnel("a"))).unwrap();
    assert_eq!(listener.id(), "a");
    assert_eq!(listener.url(), "https://a.ngrok.app");
    assert_eq!(listener.protocol(), "https");
    assert_eq!(listener.metadata(), "meta");
    let forwarder = agent.forward(TunnelKind::Http, Ok(tunnel("b"))).unwrap();
    assert_eq!(forwarder.id(), "b");
    assert_eq!(forwarder.url(), "https://b.ngrok.app");
    assert_eq!(forwarder.metadata(), "meta");
    let failed = agent.listen(TunnelKind::Tls, Err(RpcError { message: "x".into() }));
    assert_eq!(failed.unwrap_err().to_string(), "rpc error: x");
    let ids: Vec<String> = agent.endpoints().into_iter().map(|e| e.id).collect();
    assert_eq!(ids, ["a", "b"]);
    assert_eq!(agent.endpoints()[0].url.as_deref(), Some("https://a.ngrok.app"));
    let (closed, _) = agent.disconnect(Err(RpcError { message: "gone".into() }), Instant::now());
    assert!(matches!(closed, Err(AgentError::Rpc(_))));
    assert!(agent.endpoints().is_empty());
    assert!(agent.session().is_none());
    let (again, _) = agent.disconnect(Err(RpcError { message: "gone".into() }), Instant::now());
    assert!(again.is_ok());
}

#[test]
fn disconnecting_calls_every_handler_in_order() {
    let mut agent = Agent::builder()
        .event_handler(handler(7))
        .event_handler(handler(3))
        .build()
        .unwrap();
    agent.connect(Ok(Session { id: "s".into() }), Instant::now()).unwrap();
    let at = Instant::now();
    let (result, calls) = agent.disconnect(Ok(()), at);
    assert!(result.is_ok());
    let slots: Vec<u64> = calls.iter().map(|c| c.handler.slot).collect();
    assert_eq!(slots, [7, 3]);
    assert!(matches!(&calls[0].event, Event::AgentDisconnected { timestamp, error: None } if *timestamp == at));
}

#[test]
fn tunnels_follow_the_url() {
    let mut agent = Agent::builder().build().unwrap();
    agent.connect(Ok(Session { id: "s".into() }), Instant::now()).unwrap();

    let http = agent
        .listen_tunnel(vec![
            with_url("http://example.ngrok.app:8080"),
            with_metadata("m"),
            with_traffic_policy("p"),
            with_pooling_enabled(false),
            with_bindings(vec!["public".into(), "internal".into()]),
        ])
        .unwrap();
    assert_eq!(http.kind, TunnelKind::Http);
    assert_eq!(http.domain.as_deref(), Some("example.ngrok.app:8080"));
    assert_eq!(http.scheme, Some(Scheme::HTTP));
    assert_eq!(http.metadata.as_deref(), Some("m"));
    assert_eq!(http.traffic_policy.as_deref(), Some("p"));
    assert_eq!(http.pooling_enabled, Some(false));
    assert_eq!(http.binding.as_deref(), Some("public"));
    assert_eq!(http.remote_addr, None);

    let plain = agent.listen_tunnel(vec![]).unwrap();
    assert_eq!(plain.kind, TunnelKind::Http);
    assert_eq!(plain.domain, None);
    assert_eq!(plain.scheme, None);
    assert_eq!(plain.binding, None);

    let https = agent.listen_tunnel(vec![with_url("https://a.b")]).unwrap();
    assert_eq!(https.scheme, Some(Scheme::HTTPS));
    assert_eq!(https.domain.as_deref(), Some("a.b"));

    let tcp = agent.listen_tunnel(vec![with_url("tcp://1.tcp.ngrok.io:12345")]).unwrap();
    assert_eq!(tcp.kind, TunnelKind::Tcp);
    assert_eq!(tcp.remote_addr.as_deref(), Some("1.tcp.ngrok.io:12345"));
    assert_eq!(tcp.domain, None);

    let tls = agent.listen_tunnel(vec![with_url("tls://example.ngrok.app")]).unwrap();
    assert_eq!(tls.kind, TunnelKind::Tls);
    assert_eq!(tls.domain.as_deref(), Some("example.ngrok.app"));
}

#[test]
fn only_http_forwarders_carry_the_protocol() {
    let mut agent = Agent::builder().build().unwrap();
    agent.connect(Ok(Session { id: "s".into() }), Instant::now()).unwrap();
    let upstream = Upstream::new("8080").protocol("http2");
    let (http, to) = agent.forward_tunnel(&upstream, vec![]).unwrap();
    assert_eq!(http.app_protocol.as_deref(), Some("http2"));
    assert_eq!(to.as_str(), "http://localhost:8080/");
    let (tcp, _) = agent.forward_tunnel(&upstream, vec![with_url("tcp://a:1")]).unwrap();
    assert_eq!(tcp.app_protocol, None);
    let bad = agent.forward_tunnel(&Upstream::new(""), vec![]);
    assert_eq!(bad.unwrap_err().to_string(), "invalid url: empty host");
}

#[test]
fn agent_error_texts() {
    assert_eq!(
        AgentError::NotConnected.to_string(),
        "agent not connected, call connect() first"
    );
    assert_eq!(AgentError::AlreadyConnected.to_string(), "agent already connected");
    assert_eq!(
        AgentError::UnsupportedScheme("ftp".into()).to_string(),
        "unsupported endpoint URL scheme: ftp"
    );
}
