//! RPC method name constants.
use vstd::prelude::*;

verus! {

/// Stop the ngrok agent.
pub const STOP_AGENT: &'static str = "StopAgent";

/// Restart the ngrok agent.
pub const RESTART_AGENT: &'static str = "RestartAgent";

/// Update the ngrok agent.
pub const UPDATE_AGENT: &'static str = "UpdateAgent";

} // verus!
