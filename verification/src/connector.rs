//! The connecting side: one attempt per call, no retry.
//!
//! `connect` is driven by events like the listener's operations: the caller
//! starts with `Requested`, performs the action that comes back, and reports
//! its outcome, until the action is a final one. A connector keeps nothing
//! from one attempt to the next.

use crate::endpoint::{is_wss, scheme_security, Endpoint, EndpointView, TunnelInfo, TunnelInfoView};
use crate::error::{TunnelError, TunnelErrorView};
use crate::handshake::{
    failure_error, HandshakeFailure, HandshakeFailureView, HandshakePlan, HandshakePlanView,
};
use crate::listener::accept_plan;
use crate::resolver::{select_address, selected, IpVersion, SocketAddress};
use vstd::prelude::*;

verus! {

/// What has happened since the last action of `connect`.
#[derive(Debug)]
pub enum ConnectEvent {
    /// `connect` was called.
    Requested,
    /// The host of the remote endpoint resolved to these addresses.
    Resolved(Vec<SocketAddress>),
    /// The host of the remote endpoint did not resolve.
    ResolveFailed(String),
    /// The handshake of the plan succeeded.
    Connected(HandshakePlan),
    /// The handshake failed.
    HandshakeFailed(HandshakeFailure),
}

/// An event of `connect` over the views of what it holds.
pub ghost enum ConnectEventView {
    Requested,
    Resolved(Seq<SocketAddress>),
    ResolveFailed(Seq<char>),
    Connected(HandshakePlanView),
    HandshakeFailed(HandshakeFailureView),
}

impl View for ConnectEvent {
    type V = ConnectEventView;

    open spec fn view(&self) -> ConnectEventView {
        match self {
            ConnectEvent::Requested => ConnectEventView::Requested,
            ConnectEvent::Resolved(candidates) => ConnectEventView::Resolved(candidates@),
            ConnectEvent::ResolveFailed(reason) => ConnectEventView::ResolveFailed(reason@),
            ConnectEvent::Connected(plan) => ConnectEventView::Connected(plan@),
            ConnectEvent::HandshakeFailed(failure) => ConnectEventView::HandshakeFailed(failure@),
        }
    }
}

/// What the caller of `connect` has to do next.
#[derive(Debug)]
pub enum ConnectAction {
    /// Resolve the endpoint to socket addresses, of the given families.
    Resolve { endpoint: Endpoint, ip_version: IpVersion },
    /// Connect to the remote endpoint of the plan and perform its handshake,
    /// through TLS where the plan is secure.
    Handshake(HandshakePlan),
    /// Return the tunnel over the connection, with this description.
    Deliver(TunnelInfo),
    /// Return this error.
    Fail(TunnelError),
}

/// An action of `connect` over the views of what it holds.
pub ghost enum ConnectActionView {
    Resolve { endpoint: EndpointView, ip_version: IpVersion },
    Handshake(HandshakePlanView),
    Deliver(TunnelInfoView),
    Fail(TunnelErrorView),
}

impl View for ConnectAction {
    type V = ConnectActionView;

    open spec fn view(&self) -> ConnectActionView {
        match self {
            ConnectAction::Resolve { endpoint, ip_version } => ConnectActionView::Resolve {
                endpoint: endpoint@,
                ip_version: *ip_version,
            },
            ConnectAction::Handshake(plan) => ConnectActionView::Handshake(plan@),
            ConnectAction::Deliver(info) => ConnectActionView::Deliver(info@),
            ConnectAction::Fail(e) => ConnectActionView::Fail(e@),
        }
    }
}

/// A connector of WebSocket tunnels.
#[derive(Debug)]
pub struct WSTunnelConnector {
    addr: Endpoint,
    ip_version: IpVersion,
}

/// What is known of a connector: where it connects to, and how it resolves.
pub ghost struct ConnectorView {
    /// The remote endpoint.
    pub addr: EndpointView,
    /// The address families that resolution may answer with.
    pub ip_version: IpVersion,
}

impl View for WSTunnelConnector {
    type V = ConnectorView;

    closed spec fn view(&self) -> ConnectorView {
        ConnectorView { addr: self.addr@, ip_version: self.ip_version }
    }
}

/// The host that stands for "any local address" of a family.
pub open spec fn unspecified_host(ipv4: bool) -> Seq<char> {
    if ipv4 {
        seq!['0', '.', '0', '.', '0', '.', '0']
    } else {
        seq!['[', ':', ':', ']']
    }
}

/// The handshake for a connector whose host resolved to `candidates`, or why
/// there is none: the mode is that of the scheme, the remote end is the
/// connector's endpoint, and the local end is the unspecified address of the
/// family of the first candidate that the preference accepts, with port 0.
pub open spec fn connect_plan(connector: ConnectorView, candidates: Seq<SocketAddress>) -> Result<
    HandshakePlanView,
    TunnelErrorView,
> {
    match scheme_security(connector.addr.scheme) {
        None => Err(TunnelErrorView::InvalidProtocol(connector.addr.scheme)),
        Some(secure) => match selected(candidates, connector.ip_version) {
            None => Err(TunnelErrorView::ResolutionError(connector.addr.host)),
            Some(addr) => Ok(
                HandshakePlanView {
                    secure,
                    info: TunnelInfoView {
                        tunnel_type: connector.addr.scheme,
                        local_addr: EndpointView {
                            scheme: connector.addr.scheme,
                            host: unspecified_host(addr.ip is V4),
                            port: 0,
                        },
                        remote_addr: connector.addr,
                    },
                },
            ),
        },
    }
}

/// The action that answers an event of `connect`.
///
/// A scheme that names no transport mode fails the attempt before anything is
/// resolved; every failure that is reported ends the attempt with its error;
/// only a handshake that succeeded ends it with a tunnel.
pub open spec fn connect_next(connector: ConnectorView, event: ConnectEventView) -> ConnectActionView {
    match event {
        ConnectEventView::Requested => match scheme_security(connector.addr.scheme) {
            None => ConnectActionView::Fail(
                TunnelErrorView::InvalidProtocol(connector.addr.scheme),
            ),
            Some(_) => ConnectActionView::Resolve {
                endpoint: connector.addr,
                ip_version: connector.ip_version,
            },
        },
        ConnectEventView::Resolved(candidates) => match connect_plan(connector, candidates) {
            Ok(plan) => ConnectActionView::Handshake(plan),
            Err(e) => ConnectActionView::Fail(e),
        },
        ConnectEventView::ResolveFailed(reason) => ConnectActionView::Fail(
            TunnelErrorView::ResolutionError(reason),
        ),
        ConnectEventView::Connected(plan) => ConnectActionView::Deliver(plan.info),
        ConnectEventView::HandshakeFailed(failure) => ConnectActionView::Fail(
            failure_error(failure),
        ),
    }
}

impl WSTunnelConnector {
    /// A connector to the endpoint, with no preference among address
    /// families.
    pub fn new(addr: Endpoint) -> (connector: WSTunnelConnector)
        ensures
            connector@ == (ConnectorView { addr: addr@, ip_version: IpVersion::Both }),
    {
        WSTunnelConnector { addr, ip_version: IpVersion::Both }
    }

    /// The remote endpoint.
    pub fn remote_url(&self) -> (url: Endpoint)
        ensures
            url@ == self@.addr,
    {
        self.addr.clone()
    }

    /// Sets the address families that resolution may answer with.
    pub fn set_ip_version(&mut self, ip_version: IpVersion)
        ensures
            final(self)@ == (ConnectorView { ip_version, ..old(self)@ }),
    {
        self.ip_version = ip_version;
    }

    /// Plans the handshake once the host has resolved.
    pub fn handshake_plan(&self, candidates: &Vec<SocketAddress>) -> (r: Result<HandshakePlan, TunnelError>)
        ensures
            match r {
                Ok(plan) => connect_plan(self@, candidates@) == Ok::<
                    HandshakePlanView,
                    TunnelErrorView,
                >(plan@),
                Err(e) => connect_plan(self@, candidates@) == Err::<
                    HandshakePlanView,
                    TunnelErrorView,
                >(e@),
            },
    {
        let secure = match is_wss(&self.addr) {
            Ok(secure) => secure,
            Err(e) => {
                return Err(e);
            },
        };
        let addr = match select_address(candidates, self.ip_version) {
            Some(addr) => addr,
            None => {
                return Err(TunnelError::ResolutionError(self.addr.host.clone()));
            },
        };
        let local_host = if addr.is_ipv4() {
            proof {
                reveal_strlit("0.0.0.0");
                assert("0.0.0.0"@ =~= unspecified_host(true));
            }
            "0.0.0.0"
        } else {
            proof {
                reveal_strlit("[::]");
                assert("[::]"@ =~= unspecified_host(false));
            }
            "[::]"
        };
        let info = TunnelInfo {
            tunnel_type: self.addr.scheme.clone(),
            local_addr: Endpoint {
                scheme: self.addr.scheme.clone(),
                host: local_host.to_owned(),
                port: 0,
            },
            remote_addr: self.addr.clone(),
        };
        Ok(HandshakePlan { secure, info })
    }

    /// One step of a connection attempt.
    pub fn connect(&self, event: ConnectEvent) -> (action: ConnectAction)
        ensures
            action@ == connect_next(self@, event@),
    {
        match event {
            ConnectEvent::Requested => match is_wss(&self.addr) {
                Ok(_) => ConnectAction::Resolve {
                    endpoint: self.addr.clone(),
                    ip_version: self.ip_version,
                },
                Err(e) => ConnectAction::Fail(e),
            },
            ConnectEvent::Resolved(candidates) => match self.handshake_plan(&candidates) {
                Ok(plan) => ConnectAction::Handshake(plan),
                Err(e) => ConnectAction::Fail(e),
            },
            ConnectEvent::ResolveFailed(reason) => ConnectAction::Fail(
                TunnelError::ResolutionError(reason),
            ),
            ConnectEvent::Connected(plan) => ConnectAction::Deliver(plan.info),
            ConnectEvent::HandshakeFailed(failure) => ConnectAction::Fail(failure.into_error()),
        }
    }
}

/// A connection attempt is never repeated from within: a tunnel is delivered
/// only when the handshake succeeded, a reported failure ends the attempt
/// with an error, and resolving and the handshake are each asked for in
/// answer to one event only.
pub proof fn lemma_connect_endings(connector: ConnectorView, event: ConnectEventView)
    ensures
        connect_next(connector, event) is Deliver <==> event is Connected,
        event is ResolveFailed || event is HandshakeFailed ==> connect_next(connector, event) is Fail,
        connect_next(connector, event) is Resolve ==> event is Requested,
        connect_next(connector, event) is Handshake ==> event is Resolved,
{
}

/// A connector and a listener whose schemes name different transport modes
/// never plan the same handshake: one of the two plans upgrades to TLS and
/// the other does not.
pub proof fn lemma_mismatched_schemes_plan_different_modes(
    listener: EndpointView,
    peer_host: Seq<char>,
    peer_port: u16,
    connector: ConnectorView,
    candidates: Seq<SocketAddress>,
)
    requires
        scheme_security(listener.scheme) is Some,
        scheme_security(connector.addr.scheme) is Some,
        scheme_security(listener.scheme) != scheme_security(connector.addr.scheme),
    ensures
        accept_plan(listener, peer_host, peer_port) matches Ok(accepting) && (connect_plan(
            connector,
            candidates,
        ) matches Ok(connecting) ==> accepting.secure != connecting.secure),
{
}

} // verus!
