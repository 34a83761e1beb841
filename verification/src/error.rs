//! Error types.
use vstd::prelude::*;
use crate::text::join;
use crate::urls::ParseError;

verus! {

/// The kinds of I/O errors.
#[derive(Clone, Copy, Debug, PartialEq, Eq, Structural)]
pub enum IoErrorKind {
    /// An entity was not found.
    NotFound,
    /// The operation was not permitted.
    PermissionDenied,
    /// The connection was refused by the remote server.
    ConnectionRefused,
    /// The connection was reset by the remote server.
    ConnectionReset,
    /// The remote host is not reachable.
    HostUnreachable,
    /// The network of the remote host is not reachable.
    NetworkUnreachable,
    /// The connection was aborted by the remote server.
    ConnectionAborted,
    /// There is no connection yet.
    NotConnected,
    /// The address is in use elsewhere.
    AddrInUse,
    /// The address is not a local one.
    AddrNotAvailable,
    /// The network of the system is down.
    NetworkDown,
    /// The other side is gone.
    BrokenPipe,
    /// An entity exists already.
    AlreadyExists,
    /// The operation would have to wait.
    WouldBlock,
    /// A parameter was incorrect.
    InvalidInput,
    /// The data are not valid.
    InvalidData,
    /// The operation took too long.
    TimedOut,
    /// Nothing could be written.
    WriteZero,
    /// The operation was interrupted.
    Interrupted,
    /// The operation is not supported.
    Unsupported,
    /// The end came too early.
    UnexpectedEof,
    /// There is not enough memory.
    OutOfMemory,
    /// Anything else.
    Other,
}

/// An I/O error: its kind and its message.
#[derive(Clone, Debug)]
pub struct IoError {
    /// The kind.
    pub kind: IoErrorKind,
    /// The message.
    pub message: String,
}

impl IoError {
    /// An error of the given kind.
    pub fn new(kind: IoErrorKind, message: &str) -> (r: IoError)
        ensures
            r.kind == kind,
            r.message@ == message@,
    {
        IoError { kind, message: message.to_owned() }
    }

    /// An error of no particular kind.
    pub fn other(message: &str) -> (r: IoError)
        ensures
            r.kind == IoErrorKind::Other,
            r.message@ == message@,
    {
        IoError { kind: IoErrorKind::Other, message: message.to_owned() }
    }
}

/// The primary error type for ngrok operations.
#[derive(Debug)]
pub enum Error {
    /// An error returned by ngrok cloud.
    Cloud {
        /// The ngrok error code (e.g., "ERR_NGROK_108").
        code: String,
        /// A human-readable message.
        message: String,
    },
    /// The agent is not connected.
    NotConnected,
    /// The agent is already connected.
    AlreadyConnected,
    /// An unsupported URL scheme was provided.
    UnsupportedScheme(String),
    /// A TLS error occurred.
    Tls(String),
    /// An I/O error occurred.
    Io(IoError),
    /// A muxado protocol error occurred.
    Muxado(String),
    /// The authtoken is missing.
    MissingAuthtoken,
    /// An invalid upstream address was provided.
    InvalidUpstream(String),
    /// A JSON serialization/deserialization error occurred.
    Json(String),
    /// An operation timed out.
    Timeout,
    /// An invalid URL was provided.
    Url(ParseError),
}

impl Error {
    /// The text that describes the error.
    pub open spec fn text(&self) -> Seq<char> {
        match self {
            Error::Cloud { code, message } => "ngrok cloud error ["@ + code@ + "]: "@ + message@,
            Error::NotConnected => "agent not connected"@,
            Error::AlreadyConnected => "agent already connected"@,
            Error::UnsupportedScheme(s) => "unsupported URL scheme: "@ + s@,
            Error::Tls(e) => "TLS error: "@ + e@,
            Error::Io(e) => "I/O error: "@ + e.message@,
            Error::Muxado(e) => "muxado protocol error: "@ + e@,
            Error::MissingAuthtoken =>
                "authtoken missing — set NGROK_AUTHTOKEN or call .authtoken()"@,
            Error::InvalidUpstream(a) => "invalid upstream address: "@ + a@,
            Error::Json(e) => "JSON error: "@ + e@,
            Error::Timeout => "operation timed out"@,
            Error::Url(e) => "invalid URL: "@ + e@,
        }
    }

    /// Describe the error.
    pub fn to_string(&self) -> (r: String)
        ensures
            r@ == self.text(),
    {
        match self {
            Error::Cloud { code, message } => {
                let mut r: String = join("ngrok cloud error [", code.as_str());
                r.append("]: ");
                r.append(message.as_str());
                r
            },
            Error::NotConnected => "agent not connected".to_owned(),
            Error::AlreadyConnected => "agent already connected".to_owned(),
            Error::UnsupportedScheme(s) => join("unsupported URL scheme: ", s.as_str()),
            Error::Tls(e) => join("TLS error: ", e.as_str()),
            Error::Io(e) => join("I/O error: ", e.message.as_str()),
            Error::Muxado(e) => join("muxado protocol error: ", e.as_str()),
            Error::MissingAuthtoken =>
                "authtoken missing — set NGROK_AUTHTOKEN or call .authtoken()".to_owned(),
            Error::InvalidUpstream(a) => join("invalid upstream address: ", a.as_str()),
            Error::Json(e) => join("JSON error: ", e.as_str()),
            Error::Timeout => "operation timed out".to_owned(),
            Error::Url(e) => join("invalid URL: ", e.message.as_str()),
        }
    }

    /// Returns the ngrok error code if this is a `Cloud` variant.
    pub fn code(&self) -> (r: Option<&str>)
        ensures
            match *self {
                Error::Cloud { code, message } => r is Some && r->0@ == code@,
                _ => r is None,
            },
    {
        match self {
            Error::Cloud { code, .. } => Some(code.as_str()),
            _ => None,
        }
    }
}

/// Errors returned by a connectivity probe, by the layer that failed.
#[derive(Debug)]
pub enum DiagnoseError {
    /// TCP connection failed.
    Tcp {
        /// The address that failed.
        addr: String,
        /// The underlying I/O error.
        source: IoError,
    },
    /// TLS handshake failed.
    Tls {
        /// The address that failed.
        addr: String,
        /// The underlying TLS error.
        source: String,
    },
    /// muxado SrvInfo exchange failed.
    Muxado(String),
}

impl DiagnoseError {
    /// The text that describes the error.
    pub open spec fn text(&self) -> Seq<char> {
        match self {
            DiagnoseError::Tcp { addr, source } => "TCP connection to "@ + addr@ + " failed: "@
                + source.message@,
            DiagnoseError::Tls { addr, source } => "TLS handshake with "@ + addr@ + " failed: "@
                + source@,
            DiagnoseError::Muxado(e) => "muxado SrvInfo exchange failed: "@ + e@,
        }
    }

    /// Describe the error.
    pub fn to_string(&self) -> (r: String)
        ensures
            r@ == self.text(),
    {
        match self {
            DiagnoseError::Tcp { addr, source } => {
                let mut r: String = join("TCP connection to ", addr.as_str());
                r.append(" failed: ");
                r.append(source.message.as_str());
                r
            },
            DiagnoseError::Tls { addr, source } => {
                let mut r: String = join("TLS handshake with ", addr.as_str());
                r.append(" failed: ");
                r.append(source.as_str());
                r
            },
            DiagnoseError::Muxado(e) => join("muxado SrvInfo exchange failed: ", e.as_str()),
        }
    }
}

/// Errors of the endpoint builders.
#[derive(Debug)]
pub enum NgrokError {
    /// An error reported by the ngrok service.
    Api {
        /// The ngrok error code, if the service gave one.
        code: Option<String>,
        /// The message of the service.
        message: String,
    },
    /// The agent is not connected.
    NotConnected,
    /// A URL could not be parsed.
    InvalidUrl {
        /// The URL as it was given.
        url: String,
        /// What is wrong with it.
        reason: String,
    },
    /// The URL scheme names no kind of endpoint.
    UnsupportedScheme {
        /// The scheme.
        scheme: String,
    },
}

impl NgrokError {
    /// The text that describes the error.
    pub open spec fn text(&self) -> Seq<char> {
        match self {
            NgrokError::Api { code, message } => message@,
            NgrokError::NotConnected => "agent not connected"@,
            NgrokError::InvalidUrl { url, reason } => "invalid URL "@ + url@ + ": "@ + reason@,
            NgrokError::UnsupportedScheme { scheme } => "unsupported URL scheme: "@ + scheme@,
        }
    }

    /// Describe the error.
    pub fn to_string(&self) -> (r: String)
        ensures
            r@ == self.text(),
    {
        match self {
            NgrokError::Api { message, .. } => message.clone(),
            NgrokError::NotConnected => "agent not connected".to_owned(),
            NgrokError::InvalidUrl { url, reason } => {
                let mut r: String = join("invalid URL ", url.as_str());
                r.append(": ");
                r.append(reason.as_str());
                r
            },
            NgrokError::UnsupportedScheme { scheme } => join(
                "unsupported URL scheme: ",
                scheme.as_str(),
            ),
        }
    }

    /// The ngrok error code, if the service gave one.
    pub open spec fn code_text(&self) -> Option<Seq<char>> {
        match self {
            NgrokError::Api { code, message } => code.deep_view(),
            _ => None,
        }
    }

    /// The ngrok error code, if the service gave one.
    pub fn code(&self) -> (r: Option<&str>)
        ensures
            match r {
                Some(c) => self.code_text() == Some(c@),
                None => self.code_text() is None,
            },
    {
        match self {
            NgrokError::Api { code: Some(c), .. } => Some(c.as_str()),
            _ => None,
        }
    }
}

/// The description of an error ends with what the error carries, so that nothing of it is lost; that
/// of a cloud error also holds its code.
pub proof fn error_is_described_by_what_it_carries(e: Error)
    ensures
        e matches Error::Cloud { code, message } ==> exists|a: Seq<char>, b: Seq<char>|
            e.text() == #[trigger] (a + code@ + b + message@),
        e matches Error::UnsupportedScheme(s) ==> s@.is_suffix_of(e.text()),
        e matches Error::Tls(s) ==> s@.is_suffix_of(e.text()),
        e matches Error::Io(io) ==> io.message@.is_suffix_of(e.text()),
        e matches Error::Muxado(s) ==> s@.is_suffix_of(e.text()),
        e matches Error::InvalidUpstream(s) ==> s@.is_suffix_of(e.text()),
        e matches Error::Json(s) ==> s@.is_suffix_of(e.text()),
        e matches Error::Url(p) ==> p.message@.is_suffix_of(e.text()),
        e.text().len() > 0,
{
    reveal_strlit("ngrok cloud error [");
    reveal_strlit("agent not connected");
    reveal_strlit("agent already connected");
    reveal_strlit("unsupported URL scheme: ");
    reveal_strlit("TLS error: ");
    reveal_strlit("I/O error: ");
    reveal_strlit("muxado protocol error: ");
    reveal_strlit("authtoken missing — set NGROK_AUTHTOKEN or call .authtoken()");
    reveal_strlit("invalid upstream address: ");
    reveal_strlit("JSON error: ");
    reveal_strlit("operation timed out");
    reveal_strlit("invalid URL: ");
    if let Error::Cloud { code, message } = e {
        assert(e.text() == "ngrok cloud error ["@ + code@ + "]: "@ + message@);
    }
}

/// The description of a failed probe holds the address and ends with the reason.
pub proof fn failed_probe_is_described_by_what_it_carries(e: DiagnoseError)
    ensures
        e matches DiagnoseError::Tcp { addr, source } ==> exists|a: Seq<char>, b: Seq<char>|
            e.text() == #[trigger] (a + addr@ + b + source.message@),
        e matches DiagnoseError::Tls { addr, source } ==> exists|a: Seq<char>, b: Seq<char>|
            e.text() == #[trigger] (a + addr@ + b + source@),
        e matches DiagnoseError::Muxado(s) ==> s@.is_suffix_of(e.text()),
{
    if let DiagnoseError::Tcp { addr, source } = e {
        assert(e.text() == "TCP connection to "@ + addr@ + " failed: "@ + source.message@);
    }
    if let DiagnoseError::Tls { addr, source } = e {
        assert(e.text() == "TLS handshake with "@ + addr@ + " failed: "@ + source@);
    }
}

/// The description of an endpoint builder's error holds everything that the error carries. Only an
/// error of the service has a code, which is the one that the service gave.
pub proof fn builder_error_is_described_by_what_it_carries(e: NgrokError)
    ensures
        e matches NgrokError::Api { code, message } ==> e.text() == message@ && (match (
            code,
            e.code_text(),
        ) {
            (Some(c), Some(text)) => c@ == text,
            (None, None) => true,
            _ => false,
        }),
        !(e is Api) ==> e.code_text() is None,
        e matches NgrokError::InvalidUrl { url, reason } ==> exists|a: Seq<char>, b: Seq<char>|
            e.text() == #[trigger] (a + url@ + b + reason@),
        e matches NgrokError::UnsupportedScheme { scheme } ==> scheme@.is_suffix_of(e.text()),
{
    if let NgrokError::InvalidUrl { url, reason } = e {
        assert(e.text() == "invalid URL "@ + url@ + ": "@ + reason@);
    }
}

} // verus!
