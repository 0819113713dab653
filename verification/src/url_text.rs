//! Endpoints as text: reading `<scheme>://<host>:<port>` with the URL
//! parser, and writing it.

use crate::endpoint::{classify_scheme, scheme_security, Endpoint, EndpointView};
use crate::error::{TunnelError, TunnelErrorView};
use vstd::prelude::*;
use vstd::string::StringExecFns;

verus! {

/// What a URL parser found in a text: the scheme, the host if there is one,
/// and the port, written out or the default of the scheme.
#[derive(Debug)]
pub struct UrlParts {
    pub scheme: String,
    pub host: Option<String>,
    pub port: Option<u16>,
}

/// The parts of a URL with their strings taken as sequences of characters.
pub ghost struct UrlPartsView {
    pub scheme: Seq<char>,
    pub host: Option<Seq<char>>,
    pub port: Option<u16>,
}

impl View for UrlParts {
    type V = UrlPartsView;

    open spec fn view(&self) -> UrlPartsView {
        UrlPartsView {
            scheme: self.scheme@,
            host: match self.host {
                Some(host) => Some(host@),
                None => None,
            },
            port: self.port,
        }
    }
}

/// What `url::Url::parse` makes of a text: `None` where it is no absolute
/// URL, else the scheme, host and port of the URL that it is read as.
pub uninterp spec fn url_parts(text: Seq<char>) -> Option<UrlPartsView>;

/// `url::Url::parse`, with the parsed URL taken apart by `scheme`, `host_str`
/// and `port_or_known_default`. The parser works on the text alone.
#[verifier::external_body]
fn parse_url(text: &str) -> (parts: Option<UrlParts>)
    ensures
        match parts {
            Some(found) => url_parts(text@) == Some(found@),
            None => url_parts(text@) is None,
        },
{
    match url::Url::parse(text) {
        Ok(url) => Some(
            UrlParts {
                scheme: url.scheme().to_owned(),
                host: url.host_str().map(str::to_owned),
                port: url.port_or_known_default(),
            },
        ),
        Err(_) => None,
    }
}

/// The endpoint that a parsed text stands for, or why it stands for none: a
/// scheme that names no transport mode is rejected first; a text that is no
/// URL, or lacks a host or a port, cannot be resolved.
pub open spec fn endpoint_of(text: Seq<char>, parsed: Option<UrlPartsView>) -> Result<
    EndpointView,
    TunnelErrorView,
> {
    match parsed {
        None => Err(TunnelErrorView::ResolutionError(text)),
        Some(parts) => if scheme_security(parts.scheme) is None {
            Err(TunnelErrorView::InvalidProtocol(parts.scheme))
        } else {
            match (parts.host, parts.port) {
                (Some(host), Some(port)) => Ok(
                    EndpointView { scheme: parts.scheme, host, port },
                ),
                _ => Err(TunnelErrorView::ResolutionError(text)),
            }
        },
    }
}

/// The view of what the URL parser found, if anything.
pub open spec fn option_parts_view(parsed: Option<UrlParts>) -> Option<UrlPartsView> {
    match parsed {
        Some(parts) => Some(parts@),
        None => None,
    }
}

/// The decimal digit `d`.
pub open spec fn digit(d: nat) -> char
    recommends
        d < 10,
{
    (('0' as u8) + d) as u8 as char
}

/// The decimal numeral of `n`, without leading zeros.
pub open spec fn decimal(n: nat) -> Seq<char>
    decreases n,
{
    if n < 10 {
        seq![digit(n)]
    } else {
        decimal(n / 10).push(digit(n % 10))
    }
}

/// The text `<scheme>://<host>:<port>` of an endpoint.
pub open spec fn url_text_of(endpoint: EndpointView) -> Seq<char> {
    endpoint.scheme + seq![':', '/', '/'] + endpoint.host + seq![':'] + decimal(
        endpoint.port as nat,
    )
}

fn digit_text(d: u16) -> (text: &'static str)
    requires
        d < 10,
    ensures
        text@ == seq![digit(d as nat)],
{
    proof {
        reveal_strlit("0");
        reveal_strlit("1");
        reveal_strlit("2");
        reveal_strlit("3");
        reveal_strlit("4");
        reveal_strlit("5");
        reveal_strlit("6");
        reveal_strlit("7");
        reveal_strlit("8");
        reveal_strlit("9");
    }
    let text = if d == 0 {
        "0"
    } else if d == 1 {
        "1"
    } else if d == 2 {
        "2"
    } else if d == 3 {
        "3"
    } else if d == 4 {
        "4"
    } else if d == 5 {
        "5"
    } else if d == 6 {
        "6"
    } else if d == 7 {
        "7"
    } else if d == 8 {
        "8"
    } else {
        "9"
    };
    assert(text@ =~= seq![digit(d as nat)]);
    text
}

/// Writes a number in decimal.
pub fn decimal_text(n: u16) -> (text: String)
    ensures
        text@ == decimal(n as nat),
    decreases n,
{
    if n < 10 {
        digit_text(n).to_owned()
    } else {
        let mut text = decimal_text(n / 10);
        text.append(digit_text(n % 10));
        assert(text@ =~= decimal((n / 10) as nat).push(digit((n % 10) as nat)));
        text
    }
}

impl Endpoint {
    /// The endpoint that a parsed text stands for; `parsed` is what the URL
    /// parser made of `text`.
    pub fn from_parsed(text: &str, parsed: Option<UrlParts>) -> (r: Result<Endpoint, TunnelError>)
        ensures
            match r {
                Ok(endpoint) => endpoint_of(text@, option_parts_view(parsed)) == Ok::<
                    EndpointView,
                    TunnelErrorView,
                >(endpoint@),
                Err(e) => endpoint_of(text@, option_parts_view(parsed)) == Err::<
                    EndpointView,
                    TunnelErrorView,
                >(e@),
            },
    {
        match parsed {
            None => Err(TunnelError::ResolutionError(text.to_owned())),
            Some(parts) => {
                let UrlParts { scheme, host, port } = parts;
                match classify_scheme(scheme.as_str()) {
                    Err(e) => Err(e),
                    Ok(_) => match (host, port) {
                        (Some(host), Some(port)) => Ok(Endpoint { scheme, host, port }),
                        _ => Err(TunnelError::ResolutionError(text.to_owned())),
                    },
                }
            },
        }
    }

    /// Reads an endpoint from a text of the form `<scheme>://<host>:<port>`.
    /// The port may be left out: `ws` then stands for port 80 and `wss` for
    /// port 443, as the URL parser has it.
    pub fn parse(text: &str) -> (r: Result<Endpoint, TunnelError>)
        ensures
            match r {
                Ok(endpoint) => endpoint_of(text@, url_parts(text@)) == Ok::<
                    EndpointView,
                    TunnelErrorView,
                >(endpoint@),
                Err(e) => endpoint_of(text@, url_parts(text@)) == Err::<
                    EndpointView,
                    TunnelErrorView,
                >(e@),
            },
    {
        Endpoint::from_parsed(text, parse_url(text))
    }

    /// Writes the endpoint as `<scheme>://<host>:<port>`.
    pub fn url_text(&self) -> (text: String)
        ensures
            text@ == url_text_of(self@),
    {
        let mut text = self.scheme.clone();
        proof {
            reveal_strlit("://");
            reveal_strlit(":");
            assert("://"@ =~= seq![':', '/', '/']);
            assert(":"@ =~= seq![':']);
        }
        text.append("://");
        text.append(self.host.as_str());
        text.append(":");
        let port = decimal_text(self.port);
        text.append(port.as_str());
        text
    }
}

} // verus!
