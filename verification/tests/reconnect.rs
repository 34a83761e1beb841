//! The agent and its reconnect loop, driven by events.
use ngrok::agent::{Connecting, HostFacts};
use ngrok::certs;
use ngrok::diagnose::{probe_name_of, probe_server_name, Probe};
use ngrok::error::IoError;
use ngrok::events::HandlerId;
use ngrok::proto::msg::{AuthExtra, AuthResp, AuthRespExtra, BindResp, ProxyHeader};
use ngrok::time::Span;
use ngrok::tunnel::raw_session::{
    handle_proxy,
    header_buffer_len,
    header_size_prefix,
    srv_info,
    ChannelId,
    RawSession,
    StreamAction,
};
use ngrok::tunnel::reconnecting::{
    dial_and_auth,
    heartbeat_received,
    Dial,
    DialConfig,
    LoopAction,
    LoopEvent,
    ReconnectInner,
    ReconnectingSession,
    TunnelConfig,
};
use ngrok::tunnel::routes::Routes;
use ngrok::{
    Agent,
    AgentBuilder,
    AgentTestExt,
    DiagnoseError,
    EndpointKind,
    EndpointOptions,
    Error,
    Event,
    ProxyProtoVersion,
    RpcMethod,
    Upstream,
};
use std::time::{Duration, SystemTime};

const ROOT: &str = "-----BEGIN CERTIFICATE-----
MIIBKDCB0KADAgECAgEBMAoGCCqGSM49BAMCMBQxEjAQBgNVBAMMCXRlc3Qgcm9v
dDAeFw0yNDAxMDEwMDAwMDBaFw00NDAxMDEwMDAwMDBaMBQxEjAQBgNVBAMMCXRl
c3Qgcm9vdDBZMBMGByqGSM49AgEGCCqGSM49AwEHA0IABIXAR+LHf1N/kirMeWHe
60GS7uErbCg5KcF94wvuhUb1sPbPdBPxkFteOe4AK9fc0sydf+b5xaVZ16LIvVTf
DDejEzARMA8GA1UdEwEB/wQFMAMBAf8wCgYIKoZIzj0EAwIDRwAwRAIgS28FTuvP
ou54J0klAS1qc8jtoqHUD0mqW6dAEN0wQOsCIBtutEyGhGdDvDG8SR2O1Qj7plpy
lIpyVuVYEZG1tv+4
-----END CERTIFICATE-----
";

/// PEM text around bytes that are no certificate.
const NO_CERT: &str = "-----BEGIN CERTIFICATE-----
AAAA
-----END CERTIFICATE-----
";

fn root_der() -> Vec<u8> {
    let mut input = ROOT.as_bytes();
    let der = rustls_pemfile::certs(&mut input).next().unwrap().unwrap();
    der.as_ref().to_vec()
}

fn facts() -> HostFacts {
    HostFacts {
        os: "linux".into(),
        arch: "x86_64".into(),
        version: "1.2.3".into(),
        hostname: Some("box".into()),
    }
}

fn build(builder: AgentBuilder) -> Agent {
    builder.build(facts(), ROOT.as_bytes(), &Vec::new()).ok().unwrap()
}

fn agent() -> Agent {
    build(
        Agent::builder()
            .authtoken("test-token")
            .on_event(HandlerId { slot: 4 })
            .on_event(HandlerId { slot: 2 }),
    )
}

fn auth(session_id: &str, cookie: &str) -> AuthResp {
    AuthResp {
        extra: AuthRespExtra {
            agent_session_id: session_id.into(),
            cookie: cookie.into(),
            ..AuthRespExtra::default()
        },
        ..AuthResp::default()
    }
}

fn bound(id: &str, url: &str) -> BindResp {
    BindResp { client_id: id.into(), url: url.into(), proto: "https".into(), error: String::new() }
}

fn dialed(transport: u64, session_id: &str, cookie: &str) -> LoopEvent {
    LoopEvent::Dialed {
        raw: RawSession::new(transport),
        resp: auth(session_id, cookie),
        at: SystemTime::now(),
    }
}

/// Bring an agent without endpoints to the point at which its session serves.
fn serve(agent: &mut Agent, session_id: &str) {
    assert!(matches!(agent.reconnect(LoopEvent::Woke), Some(LoopAction::Dial)));
    assert!(matches!(agent.reconnect(dialed(1, session_id, "c")), Some(LoopAction::Serve)));
    let started = agent.reconnect(LoopEvent::Started { at: SystemTime::now() });
    assert!(matches!(started, Some(LoopAction::Wait { .. })));
}

#[test]
fn builders_make_agents() {
    let agent = build(
        Agent::builder()
            .authtoken("tok")
            .client_info("my-client", "9.9")
            .metadata("meta")
            .description("d")
            .proxy_url("http://proxy")
            .with_tracing()
            .heartbeat_interval(Span { secs: 2, nanos: 999_999 })
            .heartbeat_tolerance(Span { secs: 0, nanos: 5_000_000 })
            .auto_connect(false)
            .on_rpc(HandlerId { slot: 9 }),
    );
    let extra = &agent.inner().auth_extra;
    assert_eq!(extra.authtoken, "tok");
    assert_eq!(extra.os, "linux");
    assert_eq!(extra.arch, "x86_64");
    assert_eq!(extra.version, "9.9");
    assert_eq!(extra.hostname, "box");
    assert_eq!(extra.user_agent, "my-client/1.2.3");
    assert_eq!(extra.metadata, "meta");
    assert_eq!(extra.cookie, "");
    assert_eq!(extra.heartbeat_interval_ms, 2000);
    assert_eq!(extra.heartbeat_tolerance_ms, 5);
    assert_eq!(agent.inner().rpc_handler, Some(HandlerId { slot: 9 }));
    assert_eq!(agent.inner().dial_config.connect_url, "connect.ngrok-agent.com:443");
    assert!(!agent.is_connecting());
    assert!(agent.endpoints().is_empty());
    assert!(agent.session().is_none());
}

#[test]
fn agents_have_defaults() {
    let nameless = HostFacts { hostname: None, ..facts() };
    let agent = Agent::builder()
        .authtoken("tok")
        .connect_url("host:1")
        .build(nameless, b"", &Vec::new())
        .ok()
        .unwrap();
    let extra = &agent.inner().auth_extra;
    assert_eq!(extra.version, "1.2.3");
    assert_eq!(extra.user_agent, "ngrok-rust/1.2.3");
    assert_eq!(extra.hostname, "");
    assert_eq!(extra.heartbeat_interval_ms, 10_000);
    assert_eq!(extra.heartbeat_tolerance_ms, 15_000);
    assert_eq!(agent.inner().dial_config.connect_url, "host:1");
    assert_eq!(agent.inner().dial_config.server_name().unwrap(), "host");
    assert!(agent.is_connecting());
}

#[test]
fn an_authtoken_is_needed() {
    let missing = Agent::builder().build(facts(), b"", &Vec::new());
    assert!(matches!(missing, Err(Error::MissingAuthtoken)));
    let unset = Agent::builder().authtoken("t").authtoken_from_env(None);
    assert!(matches!(unset.build(facts(), b"", &Vec::new()), Err(Error::MissingAuthtoken)));
    let set = Agent::builder().authtoken_from_env(Some("env".into()));
    assert_eq!(build(set).inner().auth_extra.authtoken, "env");
}

#[test]
fn custom_roots_are_pem_or_der() {
    let with_ca = |ca: &[u8]| {
        Agent::builder()
            .authtoken("t")
            .connect_ca_cert(ca)
            .build(facts(), ROOT.as_bytes(), &vec![b"junk".to_vec(), root_der()])
    };
    assert!(with_ca(ROOT.as_bytes()).is_ok());
    assert!(with_ca(&root_der()).is_ok());
    assert!(with_ca(b"no certificate at all").is_ok());
    let bad = with_ca(NO_CERT.as_bytes()).err().unwrap();
    assert!(bad.to_string().starts_with("I/O error: failed to add CA cert: "));
    assert!(with_ca(b"0 is no certificate").is_ok());
    assert!(with_ca(&[0x30, 0x00]).is_ok());
    assert!(with_ca(b"").is_ok());
    let bad = Agent::builder().authtoken("t").build(facts(), NO_CERT.as_bytes(), &Vec::new());
    assert!(
        bad.err().unwrap().to_string().starts_with("I/O error: failed to add ngrok CA cert: ")
    );
}

#[test]
fn roots_are_added_in_order() {
    let mut store = rustls::RootCertStore::empty();
    assert!(certs::add_certs(&mut store, &vec![root_der(), root_der()]).is_ok());
    assert_eq!(store.roots.len(), 2);
    assert!(certs::add_certs(&mut store, &vec![root_der(), b"x".to_vec(), root_der()]).is_err());
    assert_eq!(store.roots.len(), 3);
    certs::add_valid_certs(&mut store, &vec![b"x".to_vec(), root_der()]);
    assert_eq!(store.roots.len(), 4);
    assert_eq!(certs::usable_certs(vec![None, Some(vec![1]), None, Some(vec![2])]), [[1], [2]]);
}

#[test]
fn ca_files_are_read_as_pem_first() {
    let roots = |file: &[u8], sections| certs::file_store(file, sections).map(|s| s.roots.len());
    assert_eq!(roots(&root_der(), Vec::new()), Ok(1));
    assert_eq!(roots(b"0 text", Vec::new()), Ok(0));
    assert_eq!(roots(&root_der(), vec![None]), Ok(0));
    assert_eq!(roots(b"", vec![Some(root_der()), None, Some(root_der())]), Ok(2));
    assert!(roots(&root_der(), vec![Some(vec![7])]).is_err());
}

#[test]
fn a_mock_server_replaces_the_cloud() {
    let config = || certs::agent_config(&None, b"", &Vec::new()).unwrap();
    let agent = Agent::builder()
        .authtoken("t")
        .with_mock_server("127.0.0.1:9", config())
        .build(facts(), NO_CERT.as_bytes(), &Vec::new())
        .ok()
        .unwrap();
    assert_eq!(agent.inner().dial_config.connect_url, "127.0.0.1:9");
    assert_eq!(agent.inner().dial_config.server_name().unwrap(), "127.0.0.1");
    assert!(Agent::builder().danger_accept_any_cert(config()).tls_config.is_some());
}

#[test]
fn server_names_end_at_the_colon() {
    assert_eq!(probe_server_name("connect.ngrok-agent.com:443"), "connect.ngrok-agent.com");
    assert_eq!(probe_server_name("not a name:1"), "localhost");
    assert_eq!(probe_server_name(":1"), "localhost");
    assert_eq!(probe_name_of("a:b:c", true), "a");
    let agent = build(Agent::builder().authtoken("t").connect_url("no good:1"));
    let err = agent.inner().dial_config.server_name().unwrap_err();
    assert_eq!(err.to_string(), "I/O error: invalid server name");
}

#[test]
fn connecting_starts_the_loop_once() {
    let mut agent = build(Agent::builder().authtoken("t").auto_connect(false));
    assert!(agent.reconnect(LoopEvent::Woke).is_none());
    assert_eq!(agent.connect(), Connecting { start: true, connected: false });
    assert_eq!(agent.connect(), Connecting { start: false, connected: false });
    serve(&mut agent, "s");
    assert_eq!(agent.connect(), Connecting { start: false, connected: true });
}

#[test]
fn failed_dials_wait_longer_and_longer() {
    let mut agent = agent();
    let mut waits = Vec::new();
    for _ in 0..9 {
        assert!(matches!(agent.reconnect(LoopEvent::Woke), Some(LoopAction::Dial)));
        match agent.reconnect(LoopEvent::DialFailed) {
            Some(LoopAction::Sleep { ms, calls }) => {
                assert!(calls.is_empty());
                waits.push(ms);
            }
            other => panic!("unexpected action {:?}", other),
        }
    }
    assert_eq!(waits, [500, 1000, 2000, 4000, 8000, 16_000, 30_000, 30_000, 30_000]);
    serve(&mut agent, "s");
    match agent.reconnect(LoopEvent::Ended { at: SystemTime::now() }) {
        Some(LoopAction::Sleep { ms, .. }) => assert_eq!(ms, 500),
        other => panic!("unexpected action {:?}", other),
    }
}

#[test]
fn connects_and_disconnects_are_reported_to_all_handlers() {
    let mut agent = agent();
    assert!(matches!(agent.reconnect(LoopEvent::Woke), Some(LoopAction::Dial)));
    assert!(matches!(agent.reconnect(dialed(1, "sess", "cookie")), Some(LoopAction::Serve)));
    assert_eq!(agent.session().unwrap().id(), "sess");
    assert_eq!(agent.inner().auth_extra.cookie, "cookie");
    let at = SystemTime::now();
    match agent.reconnect(LoopEvent::Started { at }) {
        Some(LoopAction::Wait { calls }) => {
            let slots: Vec<u64> = calls.iter().map(|c| c.handler.slot).collect();
            assert_eq!(slots, [4, 2]);
            for call in calls {
                match call.event {
                    Event::AgentConnectSucceeded(e) => assert_eq!(e.session.id(), "sess"),
                    other => panic!("unexpected event {:?}", other),
                }
            }
        }
        other => panic!("unexpected action {:?}", other),
    }
    match agent.reconnect(LoopEvent::Ended { at }) {
        Some(LoopAction::Sleep { calls, .. }) => {
            assert_eq!(calls.len(), 2);
            match &calls[1].event {
                Event::AgentDisconnected(e) => {
                    assert_eq!(e.error.as_deref(), Some("session dropped"));
                    assert_eq!(e.session.id(), "sess");
                }
                other => panic!("unexpected event {:?}", other),
            }
        }
        other => panic!("unexpected action {:?}", other),
    }
    assert!(agent.listen_request(&EndpointOptions::default()).is_err());
    // The snapshot of the last session stays readable.
    assert_eq!(agent.session().unwrap().id(), "sess");
}

#[test]
fn heartbeats_are_reported() {
    let mut agent = agent();
    serve(&mut agent, "sess");
    let session = agent.session().unwrap();
    let handlers = vec![HandlerId { slot: 1 }];
    let latency = Duration::from_millis(7);
    let calls = heartbeat_received(&handlers, &session, latency, SystemTime::now());
    match &calls[0].event {
        Event::AgentHeartbeatReceived(e) => assert_eq!(e.latency, latency),
        other => panic!("unexpected event {:?}", other),
    }
}

#[test]
fn events_out_of_order_change_nothing() {
    let mut agent = agent();
    assert!(agent.reconnect(LoopEvent::DialFailed).is_none());
    assert!(agent.reconnect(LoopEvent::RebindFailed).is_none());
    assert!(agent.reconnect(LoopEvent::Ended { at: SystemTime::now() }).is_none());
    assert!(matches!(agent.reconnect(LoopEvent::Woke), Some(LoopAction::Dial)));
    assert!(agent.reconnect(LoopEvent::Woke).is_none());
}

#[test]
fn endpoints_are_tracked_and_bound_again() {
    let mut agent = agent();
    serve(&mut agent, "first");
    let opts = || EndpointOptions::builder().url("https://custom.ngrok.app").name("n").build();
    let (over, req) = agent.listen_request(&opts()).unwrap();
    assert_eq!(over, RawSession::new(1));
    assert_eq!(req.proto, "https");
    assert_eq!(req.opts["Hostname"], "https://custom.ngrok.app");
    let a = agent
        .listen(opts(), bound("ep_a", "https://a.ngrok.app"), ChannelId { slot: 10 })
        .unwrap();
    assert_eq!(a.id(), "ep_a");
    assert_eq!(a.name(), "n");
    assert_eq!(a.url().as_str(), "https://a.ngrok.app/");
    let b = agent
        .listen(EndpointOptions::default(), bound("ep_b", "https://b.ngrok.app"), ChannelId { slot: 11 })
        .unwrap();
    let endpoints = agent.endpoints();
    assert_eq!(endpoints.len(), 2);
    assert_eq!(endpoints[0].id, a.id());
    assert_eq!(endpoints[0].url.as_str(), a.url().as_str());
    assert!(matches!(endpoints[0].kind, EndpointKind::Listener));
    let header = |id: &str| ProxyHeader { id: id.into(), ..ProxyHeader::default() };
    assert_eq!(
        handle_proxy(&agent.inner().tunnel_senders, &header("ep_b")),
        Some(ChannelId { slot: 11 })
    );
    assert_eq!(handle_proxy(&agent.inner().tunnel_senders, &header("ep_x")), None);

    // The session is dropped. Both tunnels are bound again, in order, at the hosts they had.
    agent.reconnect(LoopEvent::Ended { at: SystemTime::now() });
    agent.reconnect(LoopEvent::Woke);
    match agent.reconnect(dialed(2, "second", "c2")) {
        Some(LoopAction::Rebind { request }) => {
            assert_eq!(request.opts["Hostname"], "a.ngrok.app");
        }
        other => panic!("unexpected action {:?}", other),
    }
    match agent.reconnect(LoopEvent::Rebound(bound("ep_a2", "https://a.ngrok.app"))) {
        Some(LoopAction::Rebind { request }) => {
            assert_eq!(request.opts["Hostname"], "b.ngrok.app");
        }
        other => panic!("unexpected action {:?}", other),
    }
    let rebound = agent.reconnect(LoopEvent::Rebound(bound("ep_b", "https://b.ngrok.app")));
    assert!(matches!(rebound, Some(LoopAction::Serve)));
    assert_eq!(
        handle_proxy(&agent.inner().tunnel_senders, &header("ep_a2")),
        Some(ChannelId { slot: 10 })
    );
    assert_eq!(agent.session().unwrap().id(), "second");

    // Closing an endpoint takes it off the list, with all its routes and its tunnel.
    agent.endpoint_closed(ChannelId { slot: 10 });
    assert_eq!(agent.endpoints().len(), 1);
    assert_eq!(agent.endpoints()[0].id, b.id());
    assert_eq!(handle_proxy(&agent.inner().tunnel_senders, &header("ep_a")), None);
    assert_eq!(handle_proxy(&agent.inner().tunnel_senders, &header("ep_a2")), None);
    assert_eq!(
        handle_proxy(&agent.inner().tunnel_senders, &header("ep_b")),
        Some(ChannelId { slot: 11 })
    );
    assert_eq!(agent.inner().tunnels.len(), 1);
}

#[test]
fn a_closed_forwarder_gets_no_connection() {
    let mut agent = agent();
    serve(&mut agent, "s");
    let channel = ChannelId { slot: 3 };
    agent
        .forward(Upstream::new("localhost:9000"), EndpointOptions::default(), bound("ep", "https://f.b"), channel)
        .unwrap();
    let header = ProxyHeader { id: "ep".into(), ..ProxyHeader::default() };
    assert_eq!(handle_proxy(&agent.inner().tunnel_senders, &header), Some(channel));
    agent.endpoint_closed(channel);
    assert_eq!(handle_proxy(&agent.inner().tunnel_senders, &header), None);
    agent.reconnect(LoopEvent::Ended { at: SystemTime::now() });
    agent.reconnect(LoopEvent::Woke);
    assert!(matches!(agent.reconnect(dialed(2, "t", "")), Some(LoopAction::Serve)));
}

#[test]
fn endpoints_closed_during_a_rebind_are_passed_over() {
    let mut agent = agent();
    serve(&mut agent, "s");
    for slot in 0..3 {
        let resp = bound(&format!("ep_{}", slot), "https://a.b");
        agent.listen(EndpointOptions::default(), resp, ChannelId { slot }).unwrap();
    }
    agent.reconnect(LoopEvent::Ended { at: SystemTime::now() });
    agent.reconnect(LoopEvent::Woke);
    assert!(matches!(agent.reconnect(dialed(2, "t", "")), Some(LoopAction::Rebind { .. })));
    // The tunnel that is being bound is closed, and so is the next one.
    agent.endpoint_closed(ChannelId { slot: 0 });
    agent.endpoint_closed(ChannelId { slot: 1 });
    let header = |id: &str| ProxyHeader { id: id.into(), ..ProxyHeader::default() };
    let next = agent.reconnect(LoopEvent::Rebound(bound("new_0", "https://a.b")));
    assert!(matches!(next, Some(LoopAction::Rebind { .. })));
    assert_eq!(handle_proxy(&agent.inner().tunnel_senders, &header("new_0")), None);
    let last = agent.reconnect(LoopEvent::Rebound(bound("new_2", "https://a.b")));
    assert!(matches!(last, Some(LoopAction::Serve)));
    assert_eq!(
        handle_proxy(&agent.inner().tunnel_senders, &header("new_2")),
        Some(ChannelId { slot: 2 })
    );
}

#[test]
fn a_failed_rebind_starts_over() {
    let mut agent = agent();
    serve(&mut agent, "s");
    agent
        .listen(EndpointOptions::default(), bound("ep", "https://a.b"), ChannelId { slot: 0 })
        .unwrap();
    agent.reconnect(LoopEvent::Ended { at: SystemTime::now() });
    agent.reconnect(LoopEvent::Woke);
    assert!(matches!(agent.reconnect(dialed(2, "t", "")), Some(LoopAction::Rebind { .. })));
    match agent.reconnect(LoopEvent::RebindFailed) {
        Some(LoopAction::Sleep { ms, calls }) => {
            assert_eq!(ms, 500);
            assert!(calls.is_empty());
        }
        other => panic!("unexpected action {:?}", other),
    }
    assert!(matches!(agent.reconnect(LoopEvent::Woke), Some(LoopAction::Dial)));
}

#[test]
fn refused_and_unreadable_binds() {
    let mut agent = agent();
    serve(&mut agent, "s");
    let refused = BindResp { error: "limit".into(), ..BindResp::default() };
    match agent.listen(EndpointOptions::default(), refused, ChannelId { slot: 0 }) {
        Err(Error::Cloud { code, message }) => assert_eq!((code.as_str(), message.as_str()), ("", "limit")),
        other => panic!("unexpected result {:?}", other),
    }
    assert!(agent.inner().tunnels.is_empty());
    let unreadable = agent.listen(EndpointOptions::default(), bound("ep", "::"), ChannelId { slot: 0 });
    assert!(matches!(unreadable, Err(Error::Url(_))));
    // Nobody holds the endpoint, so nothing of it is left.
    assert!(agent.inner().tunnels.is_empty());
    assert!(agent.endpoints().is_empty());
    let header = ProxyHeader { id: "ep".into(), ..ProxyHeader::default() };
    assert_eq!(handle_proxy(&agent.inner().tunnel_senders, &header), None);
}

#[test]
fn forwarders_are_listed_with_their_upstream() {
    let mut agent = agent();
    serve(&mut agent, "s");
    let upstream = Upstream::new("127.0.0.1:9000").protocol("http2");
    let (forwarder, addr) = agent
        .forward(upstream, EndpointOptions::default(), bound("ep", "https://f.ngrok.app"), ChannelId { slot: 3 })
        .unwrap();
    assert_eq!(addr, "127.0.0.1:9000");
    assert_eq!(forwarder.id(), "ep");
    assert_eq!(forwarder.url().as_str(), "https://f.ngrok.app/");
    assert_eq!(forwarder.upstream_url().as_str(), "tcp://127.0.0.1:9000");
    assert_eq!(forwarder.upstream_protocol(), Some("http2"));
    assert_eq!(forwarder.proxy_protocol(), ProxyProtoVersion::Off);
    match &agent.endpoints()[0].kind {
        EndpointKind::Forwarder { upstream_url } => {
            assert_eq!(upstream_url.as_str(), "tcp://127.0.0.1:9000");
        }
        other => panic!("unexpected kind {:?}", other),
    }
    let bad = agent.forward(
        Upstream::new("nowhere"),
        EndpointOptions::default(),
        bound("ep2", "https://g.ngrok.app"),
        ChannelId { slot: 4 },
    );
    assert!(matches!(bad, Err(Error::InvalidUpstream(a)) if a == "nowhere"));
    // The endpoint was closed again.
    assert_eq!(agent.endpoints().len(), 1);
    assert_eq!(agent.inner().tunnels.len(), 1);
    let header = ProxyHeader { id: "ep2".into(), ..ProxyHeader::default() };
    assert_eq!(handle_proxy(&agent.inner().tunnel_senders, &header), None);
    let odd = agent
        .forward(
            Upstream::new("[::"),
            EndpointOptions::default(),
            bound("ep3", "https://h.ngrok.app"),
            ChannelId { slot: 5 },
        )
        .unwrap();
    assert_eq!(odd.1, "[::");
    assert_eq!(odd.0.upstream_url().as_str(), "tcp://localhost:0");
}

#[test]
fn a_disconnected_agent_stays_so() {
    let mut agent = agent();
    serve(&mut agent, "s");
    agent
        .listen(EndpointOptions::default(), bound("ep", "https://a.b"), ChannelId { slot: 0 })
        .unwrap();
    let raw = agent.inner().raw_session;
    let left = agent.disconnect();
    assert_eq!(left.channels, [ChannelId { slot: 0 }]);
    assert!(raw.is_some());
    assert_eq!(left.session, raw);
    assert!(agent.endpoints().is_empty());
    let header = ProxyHeader { id: "ep".into(), ..ProxyHeader::default() };
    assert_eq!(handle_proxy(&agent.inner().tunnel_senders, &header), None);
    assert!(agent.session().is_some());
    assert!(matches!(
        agent.listen_request(&EndpointOptions::default()),
        Err(Error::NotConnected)
    ));
    // An answer that comes late opens nothing.
    let late = agent.listen(
        EndpointOptions::default(),
        bound("late", "https://a.b"),
        ChannelId { slot: 1 },
    );
    assert!(matches!(late, Err(Error::NotConnected)));
    let late = agent.forward(
        Upstream::new("8080"),
        EndpointOptions::default(),
        bound("late", "https://a.b"),
        ChannelId { slot: 1 },
    );
    assert!(matches!(late, Err(Error::NotConnected)));
    assert!(agent.endpoints().is_empty());
    assert!(agent.inner().tunnels.is_empty());
    match agent.reconnect(LoopEvent::Ended { at: SystemTime::now() }) {
        Some(LoopAction::Stop { calls }) => assert!(calls.is_empty()),
        other => panic!("unexpected action {:?}", other),
    }
    assert!(agent.reconnect(LoopEvent::Woke).is_none());
}

#[test]
fn streams_are_dispatched_by_type() {
    let kind = |t: u32| RawSession::start_accept_loop(t, true);
    assert!(matches!(kind(3), StreamAction::Proxy));
    assert!(matches!(kind(9), StreamAction::StopTunnel));
    assert!(matches!(kind(7), StreamAction::Unknown(7)));
    assert!(matches!(kind(0), StreamAction::Unknown(0)));
    let method = |t: u32| match RawSession::start_accept_loop(t, true) {
        StreamAction::Rpc(req) => Some(req.method),
        _ => None,
    };
    assert_eq!(method(4), Some(RpcMethod::RestartAgent));
    assert_eq!(method(5), Some(RpcMethod::StopAgent));
    assert_eq!(method(6), Some(RpcMethod::UpdateAgent));
    assert!(matches!(RawSession::start_accept_loop(5, false), StreamAction::NoHandler));
}

#[test]
fn authentication_is_requested_and_answered() {
    let request = RawSession::auth_request(AuthExtra::default());
    assert_eq!(request.version, ["3", "2"]);
    assert_eq!(request.client_id, "");
    assert!(RawSession::auth(auth("s", "c")).is_ok());
    let refused = AuthResp { error: "bad token".into(), ..AuthResp::default() };
    let err = RawSession::auth(refused).unwrap_err();
    assert_eq!(err.to_string(), "ngrok cloud error []: bad token");
    assert_eq!(srv_info(), "{}");
}

#[test]
fn header_sizes_are_little_endian() {
    for size in [0i64, 1, 256, 0x0102_0304_0506_0708, i64::MAX, -1, i64::MIN] {
        assert_eq!(header_size_prefix(&size.to_le_bytes()), size);
    }
    assert_eq!(header_buffer_len(42), 42);
}

#[test]
fn a_bind_needs_a_session() {
    let mut agent = agent();
    let config = TunnelConfig {
        bind_req: ngrok::agent::bind_request(&EndpointOptions::builder().url("tcp://a:1").build()),
        accept_tx: ChannelId { slot: 0 },
    };
    assert_eq!(config.bind_req.proto, "tcp");
    assert!(matches!(agent.inner().do_bind(&config), Err(Error::NotConnected)));
    serve(&mut agent, "s");
    let (raw, req) = agent.inner().do_bind(&config).unwrap();
    assert_eq!(raw, RawSession::new(1));
    assert_eq!(req.proto, "tcp");
}

#[test]
fn probes_name_the_layer_that_failed() {
    let tcp = Agent::diagnose(None, Probe::TcpFailed(IoError::other("refused"))).unwrap_err();
    assert_eq!(tcp.to_string(), "TCP connection to connect.ngrok-agent.com:443 failed: refused");
    let tls = Agent::diagnose(Some("h:1"), Probe::TlsFailed("bad cert".into())).unwrap_err();
    assert_eq!(tls.to_string(), "TLS handshake with h:1 failed: unexpected error: bad cert");
    let info = Agent::diagnose(Some("h:1"), Probe::SrvInfoFailed(Error::Timeout)).unwrap_err();
    assert!(matches!(&info, DiagnoseError::Muxado(m) if m == "operation timed out"));
    assert_eq!(info.to_string(), "muxado SrvInfo exchange failed: operation timed out");
    let latency = Duration::from_millis(3);
    let ok = Agent::diagnose(Some("h:1"), Probe::Answered { region: "us".into(), latency }).unwrap();
    assert_eq!(ok.region, "us");
    assert_eq!(ok.addr, "h:1");
    assert_eq!(ok.clone().latency, latency);
}

#[test]
fn dials_end_with_an_answer_or_an_error() {
    let tcp = dial_and_auth(Dial::TcpFailed(IoError::other("refused"))).unwrap_err();
    assert_eq!(tcp.to_string(), "I/O error: refused");
    let tls = dial_and_auth(Dial::TlsFailed("bad cert".into())).unwrap_err();
    assert_eq!(tls.to_string(), "I/O error: bad cert");
    let json = dial_and_auth(Dial::ExchangeFailed(Error::Json("x".into()))).unwrap_err();
    assert_eq!(json.to_string(), "JSON error: x");
    let raw = RawSession::new(3);
    let refused = AuthResp { error: "bad token".into(), ..AuthResp::default() };
    let cloud = dial_and_auth(Dial::Answered { raw, resp: refused }).unwrap_err();
    assert_eq!(cloud.to_string(), "ngrok cloud error []: bad token");
    let (over, resp) = dial_and_auth(Dial::Answered { raw, resp: auth("s", "c") }).unwrap();
    assert_eq!(over, raw);
    assert_eq!(resp.extra.agent_session_id, "s");
}

#[test]
fn refused_tunnels_are_not_registered() {
    let mut inner = ReconnectInner {
        auth_extra: AuthExtra::default(),
        tunnels: Vec::new(),
        tunnel_senders: Routes::new(),
        rpc_handler: None,
        event_handlers: Vec::new(),
        cookie: String::new(),
        session: None,
        raw_session: None,
        closed: false,
        dial_config: DialConfig {
            connect_url: "h:1".into(),
            tls_config: certs::agent_config(&None, b"", &Vec::new()).unwrap(),
            heartbeat_interval: Span::from_secs(1),
            heartbeat_tolerance: Span::from_secs(1),
        },
        connected: false,
    };
    let config = || TunnelConfig {
        bind_req: ngrok::agent::bind_request(&EndpointOptions::default()),
        accept_tx: ChannelId { slot: 6 },
    };
    let refused = BindResp { error: "no".into(), ..BindResp::default() };
    assert!(ReconnectingSession::bind(&mut inner, config(), refused).is_err());
    assert!(inner.tunnels.is_empty());
    let resp = ReconnectingSession::bind(&mut inner, config(), bound("ep", "tcp://h:1")).unwrap();
    assert_eq!(resp.client_id, "ep");
    assert_eq!(inner.tunnels[0].bind_req.opts["Hostname"], "h");
    assert_eq!(inner.tunnel_senders.get("ep"), Some(ChannelId { slot: 6 }));
}

#[test]
fn routes_are_replaced_and_closed() {
    let mut routes = Routes::new();
    assert_eq!(routes.get("a"), None);
    routes.insert("a".into(), ChannelId { slot: 1 });
    routes.insert("b".into(), ChannelId { slot: 1 });
    routes.insert("a".into(), ChannelId { slot: 2 });
    routes.insert("c".into(), ChannelId { slot: 1 });
    routes.close(ChannelId { slot: 1 });
    assert_eq!(routes.get("a"), Some(ChannelId { slot: 2 }));
    assert_eq!(routes.get("b"), None);
    assert_eq!(routes.get("c"), None);
    routes.insert("b".into(), ChannelId { slot: 2 });
    routes.close(ChannelId { slot: 2 });
    assert_eq!(routes.get("a"), None);
    assert_eq!(routes.get("b"), None);
}
