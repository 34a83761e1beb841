//! The types of the core: options, upstreams, errors, sessions, RPC, addresses, bind requests.
use ngrok::agent::{build_bind_opts, gethostname, resolve_parsed_addr, resolve_upstream_addr};
use ngrok::error::{IoError, IoErrorKind};
use ngrok::listener::is_fatal_accept_error;
use ngrok::proto::msg::ProxyHeader;
use ngrok::rpc::constants;
use ngrok::urls::Url;
use ngrok::{
    AgentSession,
    EndpointInfo,
    EndpointKind,
    EndpointListener,
    EndpointOptions,
    Error,
    NgrokAddr,
    NgrokStream,
    ProxyProtoVersion,
    RpcMethod,
    RpcRequest,
    RpcResponse,
    Upstream,
};
use std::time::SystemTime;

#[test]
fn resolve_port_only() {
    assert_eq!(resolve_upstream_addr("8080").unwrap(), "localhost:8080");
}

#[test]
fn resolve_host_port() {
    assert_eq!(resolve_upstream_addr("http://myhost:3000").unwrap(), "myhost:3000");
}

#[test]
fn resolve_http_url() {
    assert_eq!(resolve_upstream_addr("http://backend:9000").unwrap(), "backend:9000");
}

#[test]
fn resolve_https_url_default_port() {
    assert_eq!(resolve_upstream_addr("https://secure.local").unwrap(), "secure.local:443");
}

#[test]
fn resolve_http_url_default_port() {
    assert_eq!(resolve_upstream_addr("http://backend").unwrap(), "backend:80");
}

#[test]
fn resolve_invalid_addr() {
    assert!(resolve_upstream_addr("not-a-valid-thing").is_err());
}

#[test]
fn resolve_edge_cases() {
    // A name and a port parse as a URL without a host; an IP address and a port do not parse.
    assert_eq!(resolve_upstream_addr("myhost:3000").unwrap(), "myhost:3000");
    assert_eq!(resolve_upstream_addr("localhost:8080").unwrap(), "localhost:8080");
    assert_eq!(resolve_upstream_addr("127.0.0.1:9090").unwrap(), "127.0.0.1:9090");
    assert_eq!(resolve_upstream_addr("my-host.local:0080").unwrap(), "my-host.local:0080");
    // Other URLs without a host are on localhost, at the default port.
    assert_eq!(resolve_upstream_addr("unix:/run/app.sock").unwrap(), "localhost:80");
    assert_eq!(resolve_upstream_addr("mailto:someone").unwrap(), "localhost:80");
    assert_eq!(resolve_upstream_addr("myhost:3000/path").unwrap(), "localhost:80");
    assert_eq!(resolve_upstream_addr("myhost:65536").unwrap(), "localhost:80");
    assert_eq!(resolve_upstream_addr("myhost:+80").unwrap(), "localhost:80");
    assert_eq!(resolve_upstream_addr("myhost:").unwrap(), "localhost:80");
    // What does not parse as a URL and holds a colon stays as it is.
    assert_eq!(resolve_upstream_addr("my_host:3000").unwrap(), "my_host:3000");
    assert_eq!(resolve_upstream_addr(":3000").unwrap(), ":3000");
    assert_eq!(resolve_upstream_addr("+80").unwrap(), "localhost:80");
    assert_eq!(resolve_upstream_addr("0065535").unwrap(), "localhost:65535");
    assert!(matches!(resolve_upstream_addr("65536"), Err(Error::InvalidUpstream(a)) if a == "65536"));
    assert!(resolve_upstream_addr("").is_err());
    assert_eq!(resolve_parsed_addr("0", None).unwrap(), "localhost:0");
}

#[test]
fn build_bind_opts_empty() {
    let opts = EndpointOptions::default();
    let val = build_bind_opts(&opts);
    let obj = val.as_object().unwrap();
    assert!(obj.is_empty());
}

#[test]
fn build_bind_opts_with_url_and_policy() {
    let opts = EndpointOptions::builder()
        .url("https://example.ngrok.app")
        .traffic_policy("on-http-request: []")
        .pooling_enabled(true)
        .bindings(vec!["public".into()])
        .build();
    let val = build_bind_opts(&opts);
    let obj = val.as_object().unwrap();
    assert_eq!(obj.get("Hostname").and_then(|v| v.as_str()), Some("https://example.ngrok.app"));
    assert_eq!(obj.get("TrafficPolicy").and_then(|v| v.as_str()), Some("on-http-request: []"));
    assert_eq!(obj.get("PoolingEnabled").and_then(|v| v.as_bool()), Some(true));
    assert!(obj.get("Bindings").unwrap().is_array());
}

#[test]
fn bindings_are_sent_in_order() {
    let opts = EndpointOptions::builder().bindings(vec!["b".into(), "a".into()]).build();
    let val = build_bind_opts(&opts);
    assert_eq!(val["Bindings"][0].as_str(), Some("b"));
    assert_eq!(val["Bindings"][1].as_str(), Some("a"));
    assert_eq!(val.as_object().unwrap().len(), 1);
}

#[test]
fn hostname_ends_at_the_zero_byte() {
    assert_eq!(gethostname(0, b"box\0junk").as_deref(), Some("box"));
    assert_eq!(gethostname(0, b"full").as_deref(), Some("full"));
    assert_eq!(gethostname(0, "b\u{fc}ro\0".as_bytes()).as_deref(), Some("b\u{fc}ro"));
    assert_eq!(gethostname(0, &[0xff, 0]), None);
    assert_eq!(gethostname(-1, b"box\0"), None);
}

#[test]
fn cloud_error_exposes_code() {
    let err = Error::Cloud { code: "ERR_NGROK_108".into(), message: "invalid authtoken".into() };
    assert_eq!(err.code(), Some("ERR_NGROK_108"));
    assert!(err.to_string().contains("ERR_NGROK_108"));
}

#[test]
fn non_cloud_error_has_no_code() {
    let err = Error::NotConnected;
    assert_eq!(err.code(), None);
}

#[test]
fn error_texts() {
    let cloud = Error::Cloud { code: "C".into(), message: "m".into() };
    assert_eq!(cloud.to_string(), "ngrok cloud error [C]: m");
    assert_eq!(Error::NotConnected.to_string(), "agent not connected");
    assert_eq!(Error::AlreadyConnected.to_string(), "agent already connected");
    assert_eq!(Error::UnsupportedScheme("ftp".into()).to_string(), "unsupported URL scheme: ftp");
    assert_eq!(Error::Tls("x".into()).to_string(), "TLS error: x");
    assert_eq!(Error::Io(IoError::other("x")).to_string(), "I/O error: x");
    assert_eq!(Error::Muxado("x".into()).to_string(), "muxado protocol error: x");
    assert!(Error::MissingAuthtoken.to_string().starts_with("authtoken missing"));
    assert_eq!(Error::InvalidUpstream("x".into()).to_string(), "invalid upstream address: x");
    assert_eq!(Error::Json("x".into()).to_string(), "JSON error: x");
    assert_eq!(Error::Timeout.to_string(), "operation timed out");
    let url = Url::parse("no scheme").unwrap_err();
    let text = Error::Url(url).to_string();
    assert_eq!(text, "invalid URL: relative URL without a base");
}

#[test]
fn default_options_have_no_url() {
    let opts = EndpointOptions::default();
    assert!(opts.url.is_none());
    assert!(opts.name.is_none());
    assert!(opts.traffic_policy.is_none());
    assert!(!opts.pooling_enabled);
    assert!(opts.bindings.is_empty());
}

#[test]
fn builder_sets_url() {
    let opts = EndpointOptions::builder().url("https://custom.ngrok.app").build();
    assert_eq!(opts.url.as_deref(), Some("https://custom.ngrok.app"));
}

#[test]
fn builder_sets_all_fields() {
    let opts = EndpointOptions::builder()
        .url("tcp://0.tcp.ngrok.io:12345")
        .name("my-endpoint")
        .description("test endpoint")
        .metadata(r#"{"env": "test"}"#)
        .traffic_policy("on-http-request: []")
        .pooling_enabled(true)
        .bindings(vec!["public".into(), "internal".into()])
        .build();

    assert_eq!(opts.url.as_deref(), Some("tcp://0.tcp.ngrok.io:12345"));
    assert_eq!(opts.name.as_deref(), Some("my-endpoint"));
    assert_eq!(opts.description.as_deref(), Some("test endpoint"));
    assert_eq!(opts.metadata.as_deref(), Some(r#"{"env": "test"}"#));
    assert_eq!(opts.traffic_policy.as_deref(), Some("on-http-request: []"));
    assert!(opts.pooling_enabled);
    assert_eq!(opts.bindings, vec!["public", "internal"]);
}

#[test]
fn builder_default_matches_options_default() {
    let from_builder = EndpointOptions::builder().build();
    let from_default = EndpointOptions::default();
    assert_eq!(from_builder.url, from_default.url);
    assert_eq!(from_builder.pooling_enabled, from_default.pooling_enabled);
    assert_eq!(from_builder.bindings, from_default.bindings);
}

#[test]
fn endpoint_info_listener() {
    let info = EndpointInfo {
        id: "ep_123".into(),
        name: "my-tunnel".into(),
        url: Url::parse("https://abc.ngrok.app").unwrap(),
        protocol: "https".into(),
        kind: EndpointKind::Listener,
    };
    assert_eq!(info.id, "ep_123");
    assert_eq!(info.url.as_str(), "https://abc.ngrok.app/");
    assert!(matches!(info.kind, EndpointKind::Listener));
}

#[test]
fn endpoint_info_forwarder() {
    let info = EndpointInfo {
        id: "ep_456".into(),
        name: "fwd".into(),
        url: Url::parse("tcp://0.tcp.ngrok.io:12345").unwrap(),
        protocol: "tcp".into(),
        kind: EndpointKind::Forwarder { upstream_url: Url::parse("tcp://localhost:8080").unwrap() },
    };
    if let EndpointKind::Forwarder { upstream_url } = &info.kind {
        assert_eq!(upstream_url.as_str(), "tcp://localhost:8080");
    } else {
        panic!("expected Forwarder kind");
    }
}

#[test]
fn endpoint_info_clone() {
    let info = EndpointInfo {
        id: "ep_1".into(),
        name: "t".into(),
        url: Url::parse("https://a.ngrok.app").unwrap(),
        protocol: "https".into(),
        kind: EndpointKind::Listener,
    };
    let cloned = info.clone();
    assert_eq!(info.id, cloned.id);
}

#[test]
fn urls_are_taken_apart() {
    let url = Url::parse("HTTP://User@Example.COM:8080/a?b").unwrap();
    assert_eq!(url.as_str(), "http://User@example.com:8080/a?b");
    assert_eq!(url.scheme(), "http");
    assert_eq!(url.host_str(), Some("example.com"));
    assert_eq!(url.port(), Some(8080));
    let default_port = Url::parse("https://example.com:443").unwrap();
    assert_eq!(default_port.port(), None);
    let no_host = Url::parse("unix:/tmp/socket").unwrap();
    assert_eq!(no_host.host_str(), None);
    assert_eq!(Url::parse("").unwrap_err().message, "relative URL without a base");
}

#[test]
fn rpc_response_default_is_success() {
    let resp = RpcResponse::default();
    assert!(resp.error.is_none());
}

#[test]
fn rpc_response_with_error() {
    let resp = RpcResponse { error: Some("not supported".into()) };
    assert_eq!(resp.error.as_deref(), Some("not supported"));
}

#[test]
fn rpc_request_debug_format() {
    let req = RpcRequest { method: RpcMethod::StopAgent };
    let debug = format!("{:?}", req);
    assert!(debug.contains("StopAgent"));
}

#[test]
fn rpc_method_variants() {
    // Ensure all variants are constructable (non-exhaustive guard).
    let _ = RpcMethod::StopAgent;
    let _ = RpcMethod::RestartAgent;
    let _ = RpcMethod::UpdateAgent;
}

#[test]
fn rpc_constants_match_expected_values() {
    assert_eq!(constants::STOP_AGENT, "StopAgent");
    assert_eq!(constants::RESTART_AGENT, "RestartAgent");
    assert_eq!(constants::UPDATE_AGENT, "UpdateAgent");
}

#[test]
fn session_accessors() {
    let now = SystemTime::now();
    let session = AgentSession {
        id: "sess_abc123".into(),
        warnings: vec!["deprecation notice".into()],
        started_at: now,
    };
    assert_eq!(session.id(), "sess_abc123");
    assert_eq!(session.warnings(), &["deprecation notice"]);
    assert_eq!(session.started_at(), now);
}

#[test]
fn session_clone() {
    let session = AgentSession {
        id: "sess_1".into(),
        warnings: Vec::new(),
        started_at: SystemTime::now(),
    };
    let cloned = session.clone();
    assert_eq!(session.id(), cloned.id());
}

#[test]
fn session_empty_warnings() {
    let session = AgentSession {
        id: "s".into(),
        warnings: Vec::new(),
        started_at: SystemTime::now(),
    };
    assert!(session.warnings().is_empty());
}

#[test]
fn new_stores_addr() {
    let u = Upstream::new("localhost:8080");
    assert_eq!(u.addr(), "localhost:8080");
    assert!(u.protocol.is_none());
    assert!(u.tls_config.is_none());
    assert_eq!(u.proxy_proto, ProxyProtoVersion::Off);
}

#[test]
fn protocol_sets_protocol() {
    let u = Upstream::new("8080").protocol("http2");
    assert_eq!(u.protocol.as_deref(), Some("http2"));
}

#[test]
fn proxy_proto_sets_version() {
    let u = Upstream::new("8080").proxy_proto(ProxyProtoVersion::V1);
    assert_eq!(u.proxy_proto, ProxyProtoVersion::V1);

    let u = Upstream::new("8080").proxy_proto(ProxyProtoVersion::V2);
    assert_eq!(u.proxy_proto, ProxyProtoVersion::V2);
}

#[test]
fn default_proxy_proto_is_none() {
    assert_eq!(ProxyProtoVersion::default(), ProxyProtoVersion::Off);
}

#[test]
fn builder_chain() {
    let u = Upstream::new("http://backend:3000").protocol("http2").proxy_proto(ProxyProtoVersion::V2);
    assert_eq!(u.addr(), "http://backend:3000");
    assert_eq!(u.protocol.as_deref(), Some("http2"));
    assert_eq!(u.proxy_proto, ProxyProtoVersion::V2);
}

#[test]
fn upstream_parsing_port_only() {
    let u = Upstream::new("8080");
    assert_eq!(u.addr(), "8080");
}

#[test]
fn upstream_parsing_host_port() {
    let u = Upstream::new("localhost:8080");
    assert_eq!(u.addr(), "localhost:8080");
}

#[test]
fn upstream_parsing_http_url() {
    let u = Upstream::new("http://localhost:8080");
    assert_eq!(u.addr(), "http://localhost:8080");
}

#[test]
fn upstream_parsing_https_url() {
    let u = Upstream::new("https://host:443");
    assert_eq!(u.addr(), "https://host:443");
}

#[test]
fn upstream_protocol_override() {
    let u = Upstream::new("8080").protocol("http");
    assert_eq!(u.addr(), "8080");
}

#[test]
fn upstream_proxy_proto() {
    let u = Upstream::new("localhost:9090").proxy_proto(ProxyProtoVersion::V2);
    assert_eq!(u.addr(), "localhost:9090");
}

#[test]
fn ngrok_addr_display() {
    let addr = NgrokAddr::new("https://example.ngrok.app");
    assert_eq!(format!("{}", addr.as_str()), "https://example.ngrok.app");
    assert_eq!(addr.to_string(), "https://example.ngrok.app");
    assert_eq!(addr.as_str(), "https://example.ngrok.app");

    // Test with an empty string.
    let empty = NgrokAddr::new("");
    assert_eq!(empty.to_string(), "");

    // Test Debug impl.
    let debug_str = format!("{:?}", addr);
    assert!(debug_str.contains("https://example.ngrok.app"));
}

#[test]
fn addresses_compare_with_strings() {
    let addr: NgrokAddr = "1.2.3.4:5".parse().unwrap();
    assert!(addr == "1.2.3.4:5");
    assert!(addr == *"1.2.3.4:5");
    assert!(addr == "1.2.3.4:5".to_string());
    assert!(addr != "1.2.3.4:6");
    assert_eq!(NgrokAddr::from("a"), NgrokAddr::from("a".to_string()));
    let text: &str = addr.as_ref();
    assert_eq!(text, "1.2.3.4:5");
}

#[test]
fn accepted_connections_carry_the_client_address() {
    let header = ProxyHeader { client_addr: "127.0.0.1:12345".into(), ..ProxyHeader::default() };
    let (stream, addr) = EndpointListener::accept(Some(header)).unwrap();
    assert_eq!(addr.as_str(), "127.0.0.1:12345");
    assert_eq!(stream.remote_addr(), "127.0.0.1:12345");
    assert!(stream.leftover.is_none());
}

#[test]
fn a_closed_endpoint_is_a_fatal_accept_error() {
    let err = EndpointListener::accept(None).unwrap_err();
    assert_eq!(err.to_string(), "I/O error: endpoint closed");
    assert!(is_fatal_accept_error(&err));
    assert!(!is_fatal_accept_error(&Error::Timeout));
    assert!(!is_fatal_accept_error(&Error::Io(IoError::new(IoErrorKind::Other, "reset"))));
}

#[test]
fn leftover_bytes_are_read_in_order() {
    let mut stream = NgrokStream {
        remote_addr: "a".into(),
        leftover: Some(bytes::Bytes::from_static(b"hello world")),
    };
    assert_eq!(stream.poll_read(0).unwrap(), b"");
    assert_eq!(stream.poll_read(5).unwrap(), b"hello");
    assert_eq!(stream.poll_read(1).unwrap(), b" ");
    assert_eq!(stream.poll_read(100).unwrap(), b"world");
    assert!(stream.leftover.is_none());
    assert!(stream.poll_read(100).is_none());
}

#[test]
fn listener_accessors() {
    let listener = EndpointListener {
        url: Url::parse("https://abc.ngrok.app").unwrap(),
        id: "ep".into(),
        name: "n".into(),
        metadata: "m".into(),
        protocol: "https".into(),
    };
    assert_eq!(listener.url().as_str(), "https://abc.ngrok.app/");
    assert_eq!(listener.id(), "ep");
    assert_eq!(listener.name(), "n");
    assert_eq!(listener.metadata(), "m");
    assert_eq!(listener.protocol(), "https");
    assert!(listener.local_addr() == "https://abc.ngrok.app/");
}

#[test]
fn the_stream_of_connections_ends_with_the_endpoint() {
    let header = ProxyHeader { client_addr: "1.1.1.1:1".into(), ..ProxyHeader::default() };
    let (stream, addr) = EndpointListener::poll_next(Some(header)).unwrap().unwrap();
    assert_eq!(stream.remote_addr(), "1.1.1.1:1");
    assert_eq!(addr.as_str(), "1.1.1.1:1");
    assert!(EndpointListener::poll_next(None).is_none());
}

#[test]
fn options_can_be_copied() {
    let opts = EndpointOptions::builder().url("https://a").name("n").bindings(vec!["b".into()]).build();
    let copy = opts.clone();
    assert_eq!(copy.url, opts.url);
    assert_eq!(copy.name, opts.name);
    assert_eq!(copy.bindings, opts.bindings);
    assert!(copy.agent_tls_termination.is_none());
}
