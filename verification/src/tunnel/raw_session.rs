//! Raw session: Auth, Bind, and proxy stream dispatch.
use vstd::prelude::*;
use crate::error::Error;
use crate::proto::msg::{Auth, AuthExtra, AuthResp, BindResp, ProxyHeader};
use crate::rpc::{RpcMethod, RpcRequest};
use crate::tunnel::routes::Routes;

verus! {

/// Stream type of an authentication request.
pub const AUTH_REQ: u32 = 0;

/// Stream type of a bind request.
pub const BIND_REQ: u32 = 1;

/// Stream type of a proxied connection.
pub const PROXY_REQ: u32 = 3;

/// Stream type of a command to restart the agent.
pub const RESTART_REQ: u32 = 4;

/// Stream type of a command to stop the agent.
pub const STOP_REQ: u32 = 5;

/// Stream type of a command to update the agent.
pub const UPDATE_REQ: u32 = 6;

/// Stream type of a request for server information.
pub const SRV_INFO_REQ: u32 = 8;

/// Stream type of a message that a tunnel was stopped.
pub const STOP_TUNNEL_REQ: u32 = 9;

/// The channel over which an endpoint receives its connections, by its place among the channels
/// that the application keeps.
#[derive(Debug, Clone, Copy, PartialEq, Eq, Structural)]
pub struct ChannelId {
    /// The place.
    pub slot: u64,
}

/// A session with ngrok cloud, by its place among the transports that the application keeps.
#[derive(Debug, Clone, Copy, PartialEq, Eq, Structural)]
pub struct RawSession {
    /// The place.
    pub transport: u64,
}

/// What to do with an incoming stream.
#[derive(Debug)]
pub enum StreamAction {
    /// Read a proxy header and hand the stream to its endpoint.
    Proxy,
    /// Call the RPC handler.
    Rpc(RpcRequest),
    /// A command for which no handler is registered: do nothing.
    NoHandler,
    /// Read the message about a stopped tunnel.
    StopTunnel,
    /// A stream of an unknown type: report it.
    Unknown(u32),
}

/// The command that a stream type stands for, if it stands for one.
pub open spec fn command_of(stream_type: u32) -> Option<RpcMethod> {
    if stream_type == STOP_REQ {
        Some(RpcMethod::StopAgent)
    } else if stream_type == RESTART_REQ {
        Some(RpcMethod::RestartAgent)
    } else if stream_type == UPDATE_REQ {
        Some(RpcMethod::UpdateAgent)
    } else {
        None
    }
}

impl RawSession {
    /// The session over a transport.
    pub fn new(transport: u64) -> (r: RawSession)
        ensures
            r.transport == transport,
    {
        RawSession { transport }
    }

    /// The authentication request: protocol versions 3 and 2, no client ID yet, and the given
    /// extra fields.
    pub fn auth_request(extra: AuthExtra) -> (r: Auth)
        ensures
            r.version.deep_view() == seq!["3"@, "2"@],
            r.client_id@ == Seq::<char>::empty(),
            r.extra == extra,
    {
        let mut version: Vec<String> = Vec::new();
        version.push("3".to_owned());
        version.push("2".to_owned());
        assert(version.deep_view() =~= seq!["3"@, "2"@]);
        Auth { version, client_id: String::new(), extra }
    }

    /// Take the answer to an authentication request: an error message in it refuses the session.
    pub fn auth(resp: AuthResp) -> (r: Result<AuthResp, Error>)
        ensures
            resp.error@.len() == 0 ==> r == Ok::<AuthResp, Error>(resp),
            resp.error@.len() != 0 ==> (r matches Err(Error::Cloud { code, message }) && code@
                == Seq::<char>::empty() && message@ == resp.error@),
    {
        if !resp.error.as_str().is_empty() {
            return Err(Error::Cloud { code: String::new(), message: resp.error });
        }
        Ok(resp)
    }

    /// Take the answer to a bind request: an error message in it refuses the endpoint.
    pub fn bind(resp: BindResp) -> (r: Result<BindResp, Error>)
        ensures
            resp.error@.len() == 0 ==> r == Ok::<BindResp, Error>(resp),
            resp.error@.len() != 0 ==> (r matches Err(Error::Cloud { code, message }) && code@
                == Seq::<char>::empty() && message@ == resp.error@),
    {
        if !resp.error.as_str().is_empty() {
            return Err(Error::Cloud { code: String::new(), message: resp.error });
        }
        Ok(resp)
    }

    /// What the accept loop does with a stream of the given type.
    pub fn start_accept_loop(stream_type: u32, has_handler: bool) -> (r: StreamAction)
        ensures
            match command_of(stream_type) {
                Some(method) => if has_handler {
                    r == StreamAction::Rpc(RpcRequest { method })
                } else {
                    r == StreamAction::NoHandler
                },
                None => if stream_type == PROXY_REQ {
                    r == StreamAction::Proxy
                } else if stream_type == STOP_TUNNEL_REQ {
                    r == StreamAction::StopTunnel
                } else {
                    r == StreamAction::Unknown(stream_type)
                },
            },
    {
        if stream_type == PROXY_REQ {
            StreamAction::Proxy
        } else if stream_type == STOP_REQ {
            command(RpcMethod::StopAgent, has_handler)
        } else if stream_type == RESTART_REQ {
            command(RpcMethod::RestartAgent, has_handler)
        } else if stream_type == UPDATE_REQ {
            command(RpcMethod::UpdateAgent, has_handler)
        } else if stream_type == STOP_TUNNEL_REQ {
            StreamAction::StopTunnel
        } else {
            StreamAction::Unknown(stream_type)
        }
    }
}

/// Hand a command to the RPC handler, if there is one.
fn command(method: RpcMethod, has_handler: bool) -> (r: StreamAction)
    ensures
        has_handler ==> r == StreamAction::Rpc(RpcRequest { method }),
        !has_handler ==> r == StreamAction::NoHandler,
{
    if has_handler {
        StreamAction::Rpc(RpcRequest { method })
    } else {
        StreamAction::NoHandler
    }
}

/// Eight bytes as an unsigned number, the least significant byte first.
pub open spec fn le_unsigned(b: Seq<u8>) -> nat {
    b[0] as nat + 0x100 * b[1] as nat + 0x1_0000 * b[2] as nat + 0x100_0000 * b[3] as nat
        + 0x1_0000_0000 * b[4] as nat + 0x100_0000_0000 * b[5] as nat + 0x1_0000_0000_0000
        * b[6] as nat + 0x100_0000_0000_0000 * b[7] as nat
}

/// Eight bytes as a signed number in two's complement, the least significant byte first.
pub open spec fn le_signed(b: Seq<u8>) -> int {
    if b[7] < 0x80 {
        le_unsigned(b) as int
    } else {
        le_unsigned(b) - 0x1_0000_0000_0000_0000
    }
}

/// The size that stands in front of a proxy header: a signed 64 bit number, little endian.
pub fn header_size_prefix(prefix: &[u8]) -> (r: i64)
    requires
        prefix@.len() == 8,
    ensures
        r == le_signed(prefix@),
{
    let low: i64 = prefix[0] as i64 + 0x100 * prefix[1] as i64 + 0x1_0000 * prefix[2] as i64
        + 0x100_0000 * prefix[3] as i64 + 0x1_0000_0000 * prefix[4] as i64 + 0x100_0000_0000
        * prefix[5] as i64 + 0x1_0000_0000_0000 * prefix[6] as i64;
    let top: u8 = prefix[7];
    if top < 0x80 {
        low + 0x100_0000_0000_0000 * (top as i64)
    } else {
        low + 0x100_0000_0000_0000 * (top as i64 - 0x100)
    }
}

/// The length of the buffer for a proxy header whose prefix gave `size`.
pub fn header_buffer_len(size: i64) -> (r: usize)
    requires
        0 <= size <= isize::MAX,
    ensures
        r == size,
{
    size as usize
}

/// The channel to which a proxied connection goes: that of the endpoint which its header names.
pub fn handle_proxy(tunnels: &Routes, header: &ProxyHeader) -> (r: Option<ChannelId>)
    ensures
        match r {
            Some(c) => tunnels@.contains_key(header.id@) && c == tunnels@[header.id@],
            None => !tunnels@.contains_key(header.id@),
        },
{
    tunnels.get(header.id.as_str())
}

/// The body of a request for server information.
pub fn srv_info() -> (r: &'static str)
    ensures
        r@ == "{}"@,
{
    "{}"
}

/// The types of streams: requests of the agent are 0, 1 and 8; a proxied connection is 3 and a
/// stopped tunnel 9; and exactly 4, 5 and 6 are commands, to restart, to stop and to update.
pub proof fn stream_types_are_told_apart(stream_type: u32)
    ensures
        AUTH_REQ == 0 && BIND_REQ == 1 && SRV_INFO_REQ == 8,
        PROXY_REQ == 3 && STOP_TUNNEL_REQ == 9,
        command_of(stream_type) is Some <==> 4 <= stream_type <= 6,
        stream_type == 4 ==> command_of(stream_type) == Some(RpcMethod::RestartAgent),
        stream_type == 5 ==> command_of(stream_type) == Some(RpcMethod::StopAgent),
        stream_type == 6 ==> command_of(stream_type) == Some(RpcMethod::UpdateAgent),
{
}

/// Each byte counts 256 times as much as the one before it: taking the first byte off, and putting a
/// zero behind the last, leaves the number without its remainder modulo 256, which was that byte.
/// As a signed number it is the one that fits in 64 bits among those of the same remainder.
pub proof fn bytes_are_digits_in_base_256(b: Seq<u8>)
    requires
        b.len() == 8,
    ensures
        le_unsigned(b) == b[0] + 0x100 * le_unsigned(b.skip(1).push(0)),
        (forall|i: int| 0 <= i < 8 ==> #[trigger] b[i] == 0) ==> le_unsigned(b) == 0,
        le_signed(b) == le_unsigned(b) || le_signed(b) == le_unsigned(b) - 0x1_0000_0000_0000_0000,
        i64::MIN <= le_signed(b) <= i64::MAX,
{
}

/// The accept loop proxies streams of type 3, reads the message of type 9, and hands the types 4, 5
/// and 6 to the handler, if there is one, as the commands to restart, to stop and to update. It
/// reports every other type.
pub proof fn streams_are_dispatched_by_type(stream_type: u32, has_handler: bool, r: StreamAction)
    requires
        call_ensures(RawSession::start_accept_loop, (stream_type, has_handler), r),
    ensures
        stream_type == 3 <==> r is Proxy,
        stream_type == 9 <==> r is StopTunnel,
        4 <= stream_type <= 6 && !has_handler <==> r is NoHandler,
        4 <= stream_type <= 6 && has_handler <==> r is Rpc,
        r matches StreamAction::Rpc(request) ==> {
            &&& stream_type == 4 ==> request.method is RestartAgent
            &&& stream_type == 5 ==> request.method is StopAgent
            &&& stream_type == 6 ==> request.method is UpdateAgent
        },
        r matches StreamAction::Unknown(t) ==> t == stream_type,
{
}

/// An answer is taken as it is, unless it holds an error message, which is then the error.
pub proof fn answers_with_an_error_are_refused(
    auth: AuthResp,
    authed: Result<AuthResp, Error>,
    bind: BindResp,
    bound: Result<BindResp, Error>,
)
    requires
        call_ensures(RawSession::auth, (auth,), authed),
        call_ensures(RawSession::bind, (bind,), bound),
    ensures
        authed is Ok <==> auth.error@.len() == 0,
        authed matches Ok(a) ==> a == auth,
        authed matches Err(e) ==> (e matches Error::Cloud { code, message } && message@
            == auth.error@),
        bound is Ok <==> bind.error@.len() == 0,
        bound matches Ok(b) ==> b == bind,
        bound matches Err(e) ==> (e matches Error::Cloud { code, message } && message@
            == bind.error@),
{
}

/// An authentication carries the extra fields that it was given, offers the protocol versions 3 and
/// 2 in this order, and names no client yet.
pub proof fn authentication_carries_what_it_was_given(extra: AuthExtra, r: Auth)
    requires
        call_ensures(RawSession::auth_request, (extra,), r),
    ensures
        r.extra == extra,
        r.client_id@.len() == 0,
        r.version@.len() == 2,
        r.version@[0]@ == "3"@ && r.version@[1]@ == "2"@,
{
    assert(r.version.deep_view().len() == 2);
    assert(r.version.deep_view()[0] == "3"@);
    assert(r.version.deep_view()[1] == "2"@);
}

/// A proxied connection goes to the channel to which its endpoint ID leads, and nowhere if that leads
/// nowhere.
pub proof fn connection_goes_to_its_endpoint(
    tunnels: &Routes,
    header: &ProxyHeader,
    r: Option<ChannelId>,
)
    requires
        call_ensures(handle_proxy, (tunnels, header), r),
    ensures
        r is Some <==> tunnels@.contains_key(header.id@),
        r matches Some(c) ==> c == tunnels@[header.id@],
{
}

/// The size in front of a header is read with the least significant byte first, each byte counting
/// 256 times as much as the one before it.
pub proof fn header_size_is_read_little_endian(prefix: &[u8], r: i64)
    requires
        call_ensures(header_size_prefix, (prefix,), r),
        prefix@.len() == 8,
        prefix@[7] < 128,
    ensures
        r >= 0,
        r == prefix@[0] + 256 * (prefix@[1] + 256 * (prefix@[2] + 256 * (prefix@[3] + 256 * (
        prefix@[4] + 256 * (prefix@[5] + 256 * (prefix@[6] + 256 * prefix@[7])))))),
{
}

} // verus!
