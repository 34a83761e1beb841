//! # ngrok
//!
//! The verified core of an agent SDK for ngrok: what an agent decides and computes, with its
//! behaviour stated in contracts. Sockets, TLS handshakes, timers and channels belong to the
//! application, which performs the actions that the core asks for and reports how they ended.
pub mod agent;
pub mod certs;
pub mod config;
pub mod default_agent;
pub mod diagnose;
pub mod endpoint;
pub mod endpoint_builder;
pub mod error;
pub mod event;
pub mod events;
pub mod ffi;
pub mod forwarder;
pub mod json;
pub mod listener;
pub mod options;
pub mod proto;
pub mod rpc;
pub mod session;
pub mod text;
pub mod time;
pub mod tunnel;
pub mod upstream;
pub mod urls;

pub use agent::{Agent, AgentBuilder};
pub use diagnose::DiagnoseResult;
pub use endpoint::{EndpointInfo, EndpointKind};
pub use error::{DiagnoseError, Error};
pub use events::{
    AgentConnectSucceededEvent,
    AgentDisconnectedEvent,
    AgentHeartbeatReceivedEvent,
    ConnectionClosedEvent,
    ConnectionOpenedEvent,
    Event,
    HttpRequestCompleteEvent,
};
pub use forwarder::EndpointForwarder;
pub use listener::{EndpointListener, NgrokAddr, NgrokStream};
pub use options::{EndpointOptions, EndpointOptionsBuilder};
pub use rpc::{RpcMethod, RpcRequest, RpcResponse};
pub use session::AgentSession;
pub use upstream::{ProxyProtoVersion, Upstream};
use agent::AgentBuilderView;
use vstd::prelude::*;

verus! {

/// Default ngrok cloud connect address.
pub const DEFAULT_CONNECT_URL: &'static str = "connect.ngrok-agent.com:443";

/// Extension trait for `AgentBuilder` to simplify test setup. A mock server has a self-signed
/// certificate, so these take the TLS configuration that accepts it.
pub trait AgentTestExt: Sized {
    /// What was built so far.
    spec fn built(&self) -> AgentBuilderView;

    /// Connect to a mock server instead of real ngrok cloud.
    fn with_mock_server(self, connect_url: &str, any_cert: rustls::ClientConfig) -> (r: Self)
        ensures
            r.built() == (AgentBuilderView {
                connect_url: Some(connect_url@),
                tls_config: Some(any_cert),
                ..self.built()
            }),
    ;

    /// Skip TLS verification (for in-process test servers using self-signed certs).
    fn danger_accept_any_cert(self, any_cert: rustls::ClientConfig) -> (r: Self)
        ensures
            r.built() == (AgentBuilderView { tls_config: Some(any_cert), ..self.built() }),
    ;
}

impl AgentTestExt for AgentBuilder {
    open spec fn built(&self) -> AgentBuilderView {
        self@
    }

    fn with_mock_server(self, connect_url: &str, any_cert: rustls::ClientConfig) -> (r: Self) {
        self.connect_url(connect_url).danger_accept_any_cert(any_cert)
    }

    fn danger_accept_any_cert(self, any_cert: rustls::ClientConfig) -> (r: Self) {
        self.tls_config(any_cert)
    }
}

} // verus!

