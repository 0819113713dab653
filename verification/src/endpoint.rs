//! Endpoints and the transport mode that a scheme stands for.

use crate::error::{TunnelError, TunnelErrorView};
use vstd::prelude::*;

verus! {

/// One side of a tunnel, as in `<scheme>://<host>:<port>`.
///
/// Any scheme can be written down; whether it names a transport mode is
/// decided by [`is_wss`] when the endpoint is used.
#[derive(Debug)]
pub struct Endpoint {
    pub scheme: String,
    pub host: String,
    /// Port 0 asks a listener for a port of the operating system's choice.
    pub port: u16,
}

/// An endpoint with its strings taken as sequences of characters.
pub ghost struct EndpointView {
    pub scheme: Seq<char>,
    pub host: Seq<char>,
    pub port: u16,
}

impl View for Endpoint {
    type V = EndpointView;

    open spec fn view(&self) -> EndpointView {
        EndpointView { scheme: self.scheme@, host: self.host@, port: self.port }
    }
}

impl Clone for Endpoint {
    fn clone(&self) -> (copy: Self)
        ensures
            copy == *self,
    {
        Endpoint { scheme: self.scheme.clone(), host: self.host.clone(), port: self.port }
    }
}

impl Endpoint {
    /// The endpoint `<scheme>://<host>:<port>`.
    pub fn new(scheme: &str, host: &str, port: u16) -> (endpoint: Endpoint)
        ensures
            endpoint@ == (EndpointView { scheme: scheme@, host: host@, port }),
    {
        Endpoint { scheme: scheme.to_owned(), host: host.to_owned(), port }
    }
}

/// What describes an established tunnel: the scheme it runs over and its two
/// ends.
#[derive(Debug)]
pub struct TunnelInfo {
    pub tunnel_type: String,
    pub local_addr: Endpoint,
    pub remote_addr: Endpoint,
}

/// A tunnel description over the views of its parts.
pub ghost struct TunnelInfoView {
    pub tunnel_type: Seq<char>,
    pub local_addr: EndpointView,
    pub remote_addr: EndpointView,
}

impl View for TunnelInfo {
    type V = TunnelInfoView;

    open spec fn view(&self) -> TunnelInfoView {
        TunnelInfoView {
            tunnel_type: self.tunnel_type@,
            local_addr: self.local_addr@,
            remote_addr: self.remote_addr@,
        }
    }
}

/// The scheme of the plaintext mode.
pub open spec fn insecure_scheme() -> Seq<char> {
    seq!['w', 's']
}

/// The scheme of the TLS mode.
pub open spec fn secure_scheme() -> Seq<char> {
    seq!['w', 's', 's']
}

/// Whether `scheme` asks for TLS; `None` where it names no transport mode.
pub open spec fn scheme_security(scheme: Seq<char>) -> Option<bool> {
    if scheme == insecure_scheme() {
        Some(false)
    } else if scheme == secure_scheme() {
        Some(true)
    } else {
        None
    }
}

/// Classifies a scheme string: `ws` is the plaintext mode, `wss` the TLS
/// mode, anything else is rejected with the scheme in the error.
pub fn classify_scheme(scheme: &str) -> (r: Result<bool, TunnelError>)
    ensures
        match r {
            Ok(secure) => scheme_security(scheme@) == Some(secure),
            Err(e) => scheme_security(scheme@) is None && e@ == TunnelErrorView::InvalidProtocol(
                scheme@,
            ),
        },
{
    let given = scheme.to_owned();
    let ws = "ws".to_owned();
    let wss = "wss".to_owned();
    proof {
        reveal_strlit("ws");
        reveal_strlit("wss");
        assert("ws"@ =~= insecure_scheme());
        assert("wss"@ =~= secure_scheme());
    }
    if given == ws {
        Ok(false)
    } else if given == wss {
        Ok(true)
    } else {
        Err(TunnelError::InvalidProtocol(given))
    }
}

/// The transport mode of an endpoint, by its scheme.
pub fn is_wss(addr: &Endpoint) -> (r: Result<bool, TunnelError>)
    ensures
        match r {
            Ok(secure) => scheme_security(addr@.scheme) == Some(secure),
            Err(e) => scheme_security(addr@.scheme) is None && e@
                == TunnelErrorView::InvalidProtocol(addr@.scheme),
        },
{
    classify_scheme(addr.scheme.as_str())
}

/// The schemes that name a transport mode are `ws` and `wss`, and no others:
/// the first is the plaintext mode, the second the TLS mode.
pub proof fn lemma_known_schemes(scheme: Seq<char>)
    ensures
        scheme_security(insecure_scheme()) == Some(false),
        scheme_security(secure_scheme()) == Some(true),
        scheme_security(scheme) is Some <==> scheme == insecure_scheme() || scheme
            == secure_scheme(),
{
    assert(insecure_scheme().len() != secure_scheme().len());
}

} // verus!
