//! Connectivity diagnostics.
use vstd::prelude::*;
use std::time::Duration;
use crate::certs;
use crate::certs::{accepts_server_name, general_error_text};
use crate::error::{DiagnoseError, Error, IoError};
use crate::text;
use crate::text::text_before;

verus! {

/// The result of a successful connectivity probe.
#[derive(Debug)]
pub struct DiagnoseResult {
    /// The address that was probed.
    pub addr: String,
    /// The ngrok region.
    pub region: String,
    /// The measured round-trip latency.
    pub latency: Duration,
}

impl Clone for DiagnoseResult {
    fn clone(&self) -> (r: DiagnoseResult)
        ensures
            r.addr@ == self.addr@,
            r.region@ == self.region@,
            r.latency == self.latency,
    {
        DiagnoseResult {
            addr: self.addr.clone(),
            region: self.region.clone(),
            latency: self.latency,
        }
    }
}

/// How far a connectivity probe came.
#[derive(Debug)]
pub enum Probe {
    /// The TCP connection failed.
    TcpFailed(IoError),
    /// The TLS handshake failed with this message.
    TlsFailed(String),
    /// The server information could not be had.
    SrvInfoFailed(Error),
    /// The server answered with its region.
    Answered {
        /// The ngrok region.
        region: String,
        /// The time since the probe began.
        latency: Duration,
    },
}

/// The name that the server of a probe must have: the address up to the first colon, or
/// `localhost` where that is no server name.
pub open spec fn probe_name(addr: Seq<char>, accepted: bool) -> Seq<char> {
    if accepted {
        text::before_first(addr, ':')
    } else {
        "localhost"@
    }
}

/// The name that the server of a probe must have.
pub fn probe_server_name(addr: &str) -> (r: String)
    ensures
        r@ == probe_name(addr@, certs::is_server_name(text::before_first(addr@, ':'))),
{
    let accepted: bool = accepts_server_name(text_before(addr, ':'));
    probe_name_of(addr, accepted)
}

/// The name that the server of a probe must have, given whether the host is a server name.
pub fn probe_name_of(addr: &str, accepted: bool) -> (r: String)
    ensures
        r@ == probe_name(addr@, accepted),
{
    if accepted {
        text_before(addr, ':').to_owned()
    } else {
        "localhost".to_owned()
    }
}

/// Whether `r` is what a probe of the address came to.
pub open spec fn diagnosed(
    r: Result<DiagnoseResult, DiagnoseError>,
    addr: Seq<char>,
    probe: Probe,
) -> bool {
    match probe {
        Probe::TcpFailed(e) => r matches Err(DiagnoseError::Tcp { addr: a, source }) && a@ == addr
            && source == e,
        Probe::TlsFailed(e) => r matches Err(DiagnoseError::Tls { addr: a, source }) && a@ == addr
            && source@ == "unexpected error: "@ + e@,
        Probe::SrvInfoFailed(e) => r matches Err(DiagnoseError::Muxado(m)) && m@ == e.text(),
        Probe::Answered { region, latency } => r is Ok && r->Ok_0.addr@ == addr && r->Ok_0.region
            == region && r->Ok_0.latency == latency,
    }
}

/// What a connectivity probe to the given address came to.
///
/// Returns `Ok(DiagnoseResult)` if TCP, TLS, and muxado all succeeded.
/// Returns `Err` identifying which layer failed.
pub fn diagnose(addr: &str, probe: Probe) -> (r: Result<DiagnoseResult, DiagnoseError>)
    ensures
        diagnosed(r, addr@, probe),
{
    match probe {
        Probe::TcpFailed(source) => Err(DiagnoseError::Tcp { addr: addr.to_owned(), source }),
        Probe::TlsFailed(e) => Err(
            DiagnoseError::Tls { addr: addr.to_owned(), source: general_error_text(e.as_str()) },
        ),
        Probe::SrvInfoFailed(e) => Err(DiagnoseError::Muxado(e.to_string())),
        Probe::Answered { region, latency } => Ok(
            DiagnoseResult { addr: addr.to_owned(), region, latency },
        ),
    }
}

/// A probe says which layer failed, at which address and why, or that none did: then it names the
/// address, the region that answered and the time that it took.
pub proof fn probe_names_the_layer_that_failed(
    r: Result<DiagnoseResult, DiagnoseError>,
    addr: Seq<char>,
    probe: Probe,
)
    requires
        diagnosed(r, addr, probe),
    ensures
        r is Ok <==> probe is Answered,
        probe matches Probe::Answered { region, latency } ==> (r matches Ok(d) && d.addr@ == addr
            && d.region@ == region@ && d.latency == latency),
        probe matches Probe::TcpFailed(e) ==> (r matches Err(DiagnoseError::Tcp { addr: a, source })
            && a@ == addr && source.kind == e.kind && source.message@ == e.message@),
        probe matches Probe::TlsFailed(e) ==> (r matches Err(DiagnoseError::Tls { addr: a, source })
            && a@ == addr && e@.is_suffix_of(source@)),
        probe matches Probe::SrvInfoFailed(e) ==> (r matches Err(DiagnoseError::Muxado(m)) && m@
            == e.text()),
{
}

/// The server of a probe is named by the host of the address, which stands in front of the first
/// colon, where that can be the name of a server, and `localhost` otherwise.
pub proof fn probed_server_is_named_by_the_host(host: Seq<char>, rest: Seq<char>)
    requires
        !host.contains(':'),
    ensures
        probe_name(host + seq![':'] + rest, true) == host,
        probe_name(host, true) == host,
        probe_name(host, false) == "localhost"@,
        probe_name(host + seq![':'] + rest, false) == "localhost"@,
{
    let addr = host + seq![':'] + rest;
    text::texts_fall_apart_at_the_first(addr, ':');
    text::texts_fall_apart_at_the_first(host, ':');
    let front = text::before_first(addr, ':');
    let n = host.len() as int;
    assert(addr[n] == ':');
    assert(addr.contains(':'));
    assert(addr[front.len() as int] == ':');
    if front.len() < n {
        assert(host[front.len() as int] == ':');
    }
    if n < front.len() {
        assert(front[n] == ':');
    }
    assert(addr.take(n) =~= host);
    assert(addr.take(n) =~= front);
}

/// A probe is told of as it went, at the address to which it went.
pub proof fn probe_is_told_of_as_it_went(
    addr: &str,
    probe: Probe,
    r: Result<DiagnoseResult, DiagnoseError>,
    accepted: bool,
    name: String,
)
    requires
        call_ensures(diagnose, (addr, probe), r),
        call_ensures(probe_name_of, (addr, accepted), name),
    ensures
        r is Ok <==> probe is Answered,
        r matches Ok(d) ==> d.addr@ == addr@ && (probe matches Probe::Answered { region, latency }
            && d.region@ == region@ && d.latency == latency),
        probe matches Probe::TcpFailed(e) ==> (r matches Err(DiagnoseError::Tcp { addr: a, source })
            && a@ == addr@ && source == e),
        probe matches Probe::TlsFailed(e) ==> (r matches Err(DiagnoseError::Tls { addr: a, source })
            && a@ == addr@),
        probe is SrvInfoFailed ==> (r matches Err(DiagnoseError::Muxado(_))),
        accepted ==> name@ == text::before_first(addr@, ':'),
        !accepted ==> name@ == "localhost"@,
{
}

} // verus!
