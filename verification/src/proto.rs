//! Wire protocol messages for the ngrok agent protocol.
pub mod msg;

pub use msg::{
    Auth,
    AuthExtra,
    AuthResp,
    AuthRespExtra,
    BindReq,
    BindResp,
    ConnectAddress,
    ProxyHeader,
    SrvInfoResp,
    StopTunnel,
};
