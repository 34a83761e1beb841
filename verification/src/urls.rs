//! URLs, parsed by the `url` crate into the parts that this library reads.
use vstd::prelude::*;

verus! {

/// The parts of a URL, as mathematical values.
pub struct UrlView {
    /// The serialization of the whole URL.
    pub text: Seq<char>,
    /// The scheme, without the colon.
    pub scheme: Seq<char>,
    /// The host, if the URL has one.
    pub host: Option<Seq<char>>,
    /// The port, if the URL names one that is not the default of its scheme.
    pub port: Option<u16>,
}

/// A parsed URL.
#[derive(Debug)]
pub struct Url {
    /// The serialization of the whole URL.
    pub text: String,
    /// The scheme, without the colon.
    pub scheme: String,
    /// The host, if the URL has one.
    pub host: Option<String>,
    /// The port, if the URL names one that is not the default of its scheme.
    pub port: Option<u16>,
}

impl View for Url {
    type V = UrlView;

    open spec fn view(&self) -> UrlView {
        UrlView {
            text: self.text@,
            scheme: self.scheme@,
            host: self.host.deep_view(),
            port: self.port,
        }
    }
}

impl Clone for Url {
    fn clone(&self) -> (r: Url)
        ensures
            r@ == self@,
    {
        Url {
            text: self.text.clone(),
            scheme: self.scheme.clone(),
            host: self.host.clone(),
            port: self.port,
        }
    }
}

/// Why a string is not a URL: the message of the `url` crate.
#[derive(Clone, Debug)]
pub struct ParseError {
    /// The message.
    pub message: String,
}

impl View for ParseError {
    type V = Seq<char>;

    open spec fn view(&self) -> Seq<char> {
        self.message@
    }
}

/// What `url::Url::parse` makes of a string: the parts of the URL, or the message of its error.
pub uninterp spec fn url_parse(input: Seq<char>) -> Result<UrlView, Seq<char>>;

/// What a parsing attempt came to, as mathematical values.
pub open spec fn outcome(r: Result<Url, ParseError>) -> Result<UrlView, Seq<char>> {
    match r {
        Ok(u) => Ok(u@),
        Err(e) => Err(e@),
    }
}

/// The URL that a parse gave, if it gave one.
pub open spec fn maybe(url: Option<Url>) -> Option<UrlView> {
    match url {
        Some(u) => Some(u@),
        None => None,
    }
}

/// `url::Url::parse`, with the URL taken apart by `as_str`, `scheme`, `host_str` and `port`, and
/// the error by `to_string`. All of these depend on the string alone.
#[verifier::external_body]
fn parse_with_url_crate(input: &str) -> (r: Result<Url, ParseError>)
    ensures
        outcome(r) == url_parse(input@),
{
    match url::Url::parse(input) {
        Ok(u) => Ok(
            Url {
                text: u.as_str().to_string(),
                scheme: u.scheme().to_string(),
                host: u.host_str().map(String::from),
                port: u.port(),
            },
        ),
        Err(e) => Err(ParseError { message: e.to_string() }),
    }
}

impl Url {
    /// Parse an absolute URL.
    pub fn parse(input: &str) -> (r: Result<Url, ParseError>)
        ensures
            outcome(r) == url_parse(input@),
    {
        parse_with_url_crate(input)
    }

    /// The serialization of the whole URL.
    pub fn as_str(&self) -> (r: &str)
        ensures
            r@ == self@.text,
    {
        self.text.as_str()
    }

    /// The scheme, without the colon.
    pub fn scheme(&self) -> (r: &str)
        ensures
            r@ == self@.scheme,
    {
        self.scheme.as_str()
    }

    /// The host, if the URL has one.
    pub fn host_str(&self) -> (r: Option<&str>)
        ensures
            match r {
                Some(h) => self@.host == Some(h@),
                None => self@.host is None,
            },
    {
        match &self.host {
            Some(h) => Some(h.as_str()),
            None => None,
        }
    }

    /// The port, if the URL names one that is not the default of its scheme.
    pub fn port(&self) -> (r: Option<u16>)
        ensures
            r == self@.port,
    {
        self.port
    }
}

/// What a parse came to is the URL with all its parts, or the message of its error.
pub proof fn parse_outcome_keeps_every_part(r: Result<Url, ParseError>)
    ensures
        r matches Ok(u) ==> (outcome(r) matches Ok(v) && v.text == u.text@ && v.scheme == u.scheme@
            && v.port == u.port && match (v.host, u.host) {
            (Some(h), Some(host)) => h == host@,
            (None, None) => true,
            _ => false,
        }),
        r matches Err(e) ==> outcome(r) == Err::<UrlView, Seq<char>>(e.message@),
        maybe(None) is None,
        r matches Ok(u) ==> Ok::<UrlView, Seq<char>>(maybe(Some(u))->0) == outcome(r),
        r matches Ok(u) ==> maybe(Some(u)) is Some,
{
}

} // verus!
