//! RPC request and response types for server-initiated commands.
use vstd::prelude::*;

pub mod constants;

verus! {

/// A server-initiated RPC command received from ngrok cloud.
#[derive(Debug, Clone)]
pub struct RpcRequest {
    /// The RPC method to invoke.
    pub method: RpcMethod,
}

/// The type of RPC command received from ngrok cloud.
#[derive(Debug, Clone, Copy, PartialEq, Eq, Structural)]
#[non_exhaustive]
pub enum RpcMethod {
    /// Stop the ngrok agent.
    StopAgent,
    /// Restart the ngrok agent.
    RestartAgent,
    /// Update the ngrok agent.
    UpdateAgent,
}

/// The response to an RPC command.
#[derive(Debug)]
pub struct RpcResponse {
    /// An optional error message. `None` indicates success.
    pub error: Option<String>,
}

impl Default for RpcResponse {
    /// Success.
    fn default() -> (r: RpcResponse)
        ensures
            r.error is None,
    {
        RpcResponse { error: None }
    }
}

} // verus!
