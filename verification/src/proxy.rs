//! Accepting or refusing the address of an HTTP proxy.

use crate::text::same_text;
use crate::text::text_view;
use vstd::prelude::*;

verus! {

/// The error that the `url` crate gives for a text that is no URL.
#[verifier::external_type_specification]
#[verifier::external_body]
pub struct ExUrlParseError(url::ParseError);

/// What is read of a parsed URL.
#[derive(Debug)]
pub struct UrlParts {
    /// The scheme, in lower case, without the colon.
    pub scheme: String,
    /// The host as text, if the URL has one.
    pub host: Option<String>,
    /// The port, given or the usual one of the scheme, if either is known.
    pub port: Option<u16>,
}

impl View for UrlParts {
    type V = (Seq<char>, Option<Seq<char>>, Option<u16>);

    open spec fn view(&self) -> (Seq<char>, Option<Seq<char>>, Option<u16>) {
        (self.scheme@, text_view(self.host), self.port)
    }
}

/// Scheme, host and port of the URL that a text parses to; nothing where
/// it is no URL.
pub uninterp spec fn url_parts_of(text: Seq<char>) -> Option<
    (Seq<char>, Option<Seq<char>>, Option<u16>),
>;

/// Calls `Url::parse` of the `url` crate and, on the parsed URL, `scheme`,
/// `host_str` and `port_or_known_default`. What they give for a text is
/// not spelled out here: it is named `url_parts_of`. A text that is no URL
/// gives the crate's error.
#[verifier::external_body]
fn parse_url(text: &str) -> (parsed: Result<UrlParts, url::ParseError>)
    ensures
        match parsed {
            Ok(parts) => url_parts_of(text@) == Some(parts@),
            Err(_) => url_parts_of(text@) is None,
        },
{
    match url::Url::parse(text) {
        Ok(u) => Ok(
            UrlParts {
                scheme: u.scheme().to_string(),
                host: u.host_str().map(str::to_string),
                port: u.port_or_known_default(),
            },
        ),
        Err(e) => Err(e),
    }
}

/// Why a proxy address is refused.
#[derive(Clone, Copy, Debug, PartialEq, Eq, Structural)]
pub enum ProxyError {
    /// The text is no URL.
    Unparsable,
    /// The URL names no host, or no port can be told.
    NoHostOrPort,
    /// The scheme is not plain `http`.
    NotHttp,
}

/// Whether a proxy with these parts is accepted: it needs a host, a port
/// and the scheme `http`. A missing host or port is reported before a wrong
/// scheme.
pub open spec fn proxy_verdict(parts: Option<(Seq<char>, Option<Seq<char>>, Option<u16>)>) -> Result<
    (),
    ProxyError,
> {
    match parts {
        None => Err(ProxyError::Unparsable),
        Some(p) => if p.1 is None || p.2 is None {
            Err(ProxyError::NoHostOrPort)
        } else if p.0 != "http"@ {
            Err(ProxyError::NotHttp)
        } else {
            Ok(())
        },
    }
}

/// Judges the parts of a parsed proxy URL.
pub fn check_proxy_parts(parts: &UrlParts) -> (verdict: Result<(), ProxyError>)
    ensures
        verdict == proxy_verdict(Some(parts@)),
{
    if parts.host.is_none() || parts.port.is_none() {
        Err(ProxyError::NoHostOrPort)
    } else if !same_text(parts.scheme.as_str(), "http") {
        Err(ProxyError::NotHttp)
    } else {
        Ok(())
    }
}

/// Judges a proxy address given as text.
pub fn check_proxy(text: &str) -> (verdict: Result<(), ProxyError>)
    ensures
        verdict == proxy_verdict(url_parts_of(text@)),
{
    match parse_url(text) {
        Ok(parts) => check_proxy_parts(&parts),
        Err(_) => Err(ProxyError::Unparsable),
    }
}

} // verus!
