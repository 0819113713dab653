//! The listening side: binding once, then accepting connection after
//! connection.
//!
//! A listener is either unbound or listening. `listen` and `accept` are
//! driven by events: the caller starts with `Requested`, performs the action
//! that comes back, and reports its outcome as the next event, until the
//! action is a final one.

use crate::endpoint::{is_wss, scheme_security, Endpoint, EndpointView, TunnelInfo, TunnelInfoView};
use crate::error::{TunnelError, TunnelErrorView};
use crate::handshake::{
    failure_error, HandshakeFailure, HandshakeFailureView, HandshakePlan, HandshakePlanView,
};
use crate::resolver::{select_address, selected, IpVersion, SocketAddress};
use vstd::prelude::*;

verus! {

/// How many connections may wait to be accepted.
pub const LISTEN_BACKLOG: u32 = 1024;

/// What has happened since the last action of `listen`.
#[derive(Debug)]
pub enum ListenEvent {
    /// `listen` was called.
    Requested,
    /// The host of the endpoint resolved to these addresses.
    Resolved(Vec<SocketAddress>),
    /// The host of the endpoint did not resolve.
    ResolveFailed(String),
    /// A socket is bound; the operating system reports this local port.
    Bound(u16),
    /// No socket could be created, configured or bound.
    BindFailed(String),
    /// The bound socket listens.
    Started,
    /// The bound socket could not be made to listen.
    StartFailed(String),
}

/// An event of `listen` over the views of what it holds.
pub ghost enum ListenEventView {
    Requested,
    Resolved(Seq<SocketAddress>),
    ResolveFailed(Seq<char>),
    Bound(u16),
    BindFailed(Seq<char>),
    Started,
    StartFailed(Seq<char>),
}

impl View for ListenEvent {
    type V = ListenEventView;

    open spec fn view(&self) -> ListenEventView {
        match self {
            ListenEvent::Requested => ListenEventView::Requested,
            ListenEvent::Resolved(candidates) => ListenEventView::Resolved(candidates@),
            ListenEvent::ResolveFailed(reason) => ListenEventView::ResolveFailed(reason@),
            ListenEvent::Bound(port) => ListenEventView::Bound(*port),
            ListenEvent::BindFailed(reason) => ListenEventView::BindFailed(reason@),
            ListenEvent::Started => ListenEventView::Started,
            ListenEvent::StartFailed(reason) => ListenEventView::StartFailed(reason@),
        }
    }
}

/// What the caller of `listen` has to do next.
#[derive(Debug)]
pub enum ListenAction {
    /// Resolve the endpoint to socket addresses, of the given families.
    Resolve { endpoint: Endpoint, ip_version: IpVersion },
    /// Create a TCP stream socket of the family of `addr`, allow the reuse of
    /// the address, and bind it to `addr`.
    Bind { addr: SocketAddress },
    /// Make the bound socket listen, with this backlog.
    Start { backlog: u32 },
    /// Return: the listener listens.
    Done,
    /// Return this error.
    Fail(TunnelError),
}

/// An action of `listen` over the views of what it holds.
pub ghost enum ListenActionView {
    Resolve { endpoint: EndpointView, ip_version: IpVersion },
    Bind { addr: SocketAddress },
    Start { backlog: u32 },
    Done,
    Fail(TunnelErrorView),
}

impl View for ListenAction {
    type V = ListenActionView;

    open spec fn view(&self) -> ListenActionView {
        match self {
            ListenAction::Resolve { endpoint, ip_version } => ListenActionView::Resolve {
                endpoint: endpoint@,
                ip_version: *ip_version,
            },
            ListenAction::Bind { addr } => ListenActionView::Bind { addr: *addr },
            ListenAction::Start { backlog } => ListenActionView::Start { backlog: *backlog },
            ListenAction::Done => ListenActionView::Done,
            ListenAction::Fail(e) => ListenActionView::Fail(e@),
        }
    }
}

/// What has happened since the last action of `accept`.
#[derive(Debug)]
pub enum AcceptEvent {
    /// `accept` was called.
    Requested,
    /// A raw connection was accepted from this peer.
    RawAccepted { peer_host: String, peer_port: u16 },
    /// A raw connection was accepted, but its peer address could not be had.
    PeerUnknown(String),
    /// The listening socket failed to accept.
    RawFailed(String),
    /// The handshake of the plan succeeded.
    Upgraded(HandshakePlan),
    /// The handshake on the accepted connection failed.
    UpgradeFailed(HandshakeFailure),
}

/// An event of `accept` over the views of what it holds.
pub ghost enum AcceptEventView {
    Requested,
    RawAccepted { peer_host: Seq<char>, peer_port: u16 },
    PeerUnknown(Seq<char>),
    RawFailed(Seq<char>),
    Upgraded(HandshakePlanView),
    UpgradeFailed(HandshakeFailureView),
}

impl View for AcceptEvent {
    type V = AcceptEventView;

    open spec fn view(&self) -> AcceptEventView {
        match self {
            AcceptEvent::Requested => AcceptEventView::Requested,
            AcceptEvent::RawAccepted { peer_host, peer_port } => AcceptEventView::RawAccepted {
                peer_host: peer_host@,
                peer_port: *peer_port,
            },
            AcceptEvent::PeerUnknown(reason) => AcceptEventView::PeerUnknown(reason@),
            AcceptEvent::RawFailed(reason) => AcceptEventView::RawFailed(reason@),
            AcceptEvent::Upgraded(plan) => AcceptEventView::Upgraded(plan@),
            AcceptEvent::UpgradeFailed(failure) => AcceptEventView::UpgradeFailed(failure@),
        }
    }
}

/// What the caller of `accept` has to do next.
#[derive(Debug)]
pub enum AcceptAction {
    /// Wait for the next raw connection and switch off Nagle's algorithm on it.
    AcceptRaw,
    /// Drop the connection at hand, log the error, and go on as for
    /// `AcceptRaw`.
    DropAndAcceptRaw(TunnelError),
    /// Perform this handshake on the connection at hand.
    Upgrade(HandshakePlan),
    /// Return the tunnel over the connection at hand, with this description.
    Deliver(TunnelInfo),
    /// Return this error.
    Fail(TunnelError),
}

/// An action of `accept` over the views of what it holds.
pub ghost enum AcceptActionView {
    AcceptRaw,
    DropAndAcceptRaw(TunnelErrorView),
    Upgrade(HandshakePlanView),
    Deliver(TunnelInfoView),
    Fail(TunnelErrorView),
}

impl View for AcceptAction {
    type V = AcceptActionView;

    open spec fn view(&self) -> AcceptActionView {
        match self {
            AcceptAction::AcceptRaw => AcceptActionView::AcceptRaw,
            AcceptAction::DropAndAcceptRaw(e) => AcceptActionView::DropAndAcceptRaw(e@),
            AcceptAction::Upgrade(plan) => AcceptActionView::Upgrade(plan@),
            AcceptAction::Deliver(info) => AcceptActionView::Deliver(info@),
            AcceptAction::Fail(e) => AcceptActionView::Fail(e@),
        }
    }
}

/// A listener of WebSocket tunnels.
#[derive(Debug)]
pub struct WSTunnelListener {
    addr: Endpoint,
    listening: bool,
}

/// What is known of a listener: where it listens, and whether it does.
pub ghost struct ListenerView {
    /// The local endpoint.
    pub addr: EndpointView,
    /// Whether a bound socket listens.
    pub listening: bool,
}

impl View for WSTunnelListener {
    type V = ListenerView;

    closed spec fn view(&self) -> ListenerView {
        ListenerView { addr: self.addr@, listening: self.listening }
    }
}

/// The listener after an event of `listen`, and the action that answers it.
///
/// Only a reported local port changes the endpoint, and only `Started` makes
/// the listener listen; a listener that listens already goes through the same
/// steps and binds again.
pub open spec fn listen_next(pre: ListenerView, event: ListenEventView) -> (
    ListenerView,
    ListenActionView,
) {
    match event {
        ListenEventView::Requested => (
            pre,
            ListenActionView::Resolve { endpoint: pre.addr, ip_version: IpVersion::Both },
        ),
        ListenEventView::Resolved(candidates) => match selected(candidates, IpVersion::Both) {
            Some(addr) => (pre, ListenActionView::Bind { addr }),
            None => (
                pre,
                ListenActionView::Fail(TunnelErrorView::ResolutionError(pre.addr.host)),
            ),
        },
        ListenEventView::ResolveFailed(reason) => (
            pre,
            ListenActionView::Fail(TunnelErrorView::ResolutionError(reason)),
        ),
        ListenEventView::Bound(port) => (
            ListenerView { addr: EndpointView { port, ..pre.addr }, ..pre },
            ListenActionView::Start { backlog: LISTEN_BACKLOG },
        ),
        ListenEventView::BindFailed(reason) => (
            pre,
            ListenActionView::Fail(TunnelErrorView::SocketError(reason)),
        ),
        ListenEventView::Started => (ListenerView { listening: true, ..pre }, ListenActionView::Done),
        ListenEventView::StartFailed(reason) => (
            pre,
            ListenActionView::Fail(TunnelErrorView::SocketError(reason)),
        ),
    }
}

/// The handshake for a raw connection from the given peer, or why there is
/// none: the mode is that of the listener's scheme, and the tunnel will run
/// from the listener's endpoint to the peer under that scheme.
pub open spec fn accept_plan(local: EndpointView, peer_host: Seq<char>, peer_port: u16) -> Result<
    HandshakePlanView,
    TunnelErrorView,
> {
    match scheme_security(local.scheme) {
        Some(secure) => Ok(
            HandshakePlanView {
                secure,
                info: TunnelInfoView {
                    tunnel_type: local.scheme,
                    local_addr: local,
                    remote_addr: EndpointView {
                        scheme: local.scheme,
                        host: peer_host,
                        port: peer_port,
                    },
                },
            },
        ),
        None => Err(TunnelErrorView::InvalidProtocol(local.scheme)),
    }
}

/// The action that answers an event of `accept`.
///
/// Only a failure of the listening socket ends `accept` with an error, and
/// only a handshake that succeeded ends it with a tunnel; whatever goes wrong
/// with one connection sends the caller back to accepting.
pub open spec fn accept_next(listener: ListenerView, event: AcceptEventView) -> AcceptActionView {
    match event {
        AcceptEventView::Requested => AcceptActionView::AcceptRaw,
        AcceptEventView::RawAccepted { peer_host, peer_port } => match accept_plan(
            listener.addr,
            peer_host,
            peer_port,
        ) {
            Ok(plan) => AcceptActionView::Upgrade(plan),
            Err(e) => AcceptActionView::DropAndAcceptRaw(e),
        },
        AcceptEventView::PeerUnknown(reason) => AcceptActionView::DropAndAcceptRaw(
            TunnelErrorView::SocketError(reason),
        ),
        AcceptEventView::RawFailed(reason) => AcceptActionView::Fail(
            TunnelErrorView::SocketError(reason),
        ),
        AcceptEventView::Upgraded(plan) => AcceptActionView::Deliver(plan.info),
        AcceptEventView::UpgradeFailed(failure) => AcceptActionView::DropAndAcceptRaw(
            failure_error(failure),
        ),
    }
}

impl WSTunnelListener {
    /// An unbound listener for the endpoint.
    pub fn new(addr: Endpoint) -> (listener: WSTunnelListener)
        ensures
            listener@ == (ListenerView { addr: addr@, listening: false }),
    {
        WSTunnelListener { addr, listening: false }
    }

    /// The local endpoint; once a socket is bound, with the port that the
    /// operating system reported.
    pub fn local_url(&self) -> (url: Endpoint)
        ensures
            url@ == self@.addr,
    {
        self.addr.clone()
    }

    /// Whether `listen` has succeeded.
    pub fn is_listening(&self) -> (b: bool)
        ensures
            b == self@.listening,
    {
        self.listening
    }

    /// One step of binding and listening.
    pub fn listen(&mut self, event: ListenEvent) -> (action: ListenAction)
        ensures
            (final(self)@, action@) == listen_next(old(self)@, event@),
    {
        match event {
            ListenEvent::Requested => ListenAction::Resolve {
                endpoint: self.addr.clone(),
                ip_version: IpVersion::Both,
            },
            ListenEvent::Resolved(candidates) => match select_address(
                &candidates,
                IpVersion::Both,
            ) {
                Some(addr) => ListenAction::Bind { addr },
                None => ListenAction::Fail(TunnelError::ResolutionError(self.addr.host.clone())),
            },
            ListenEvent::ResolveFailed(reason) => ListenAction::Fail(
                TunnelError::ResolutionError(reason),
            ),
            ListenEvent::Bound(port) => {
                self.addr.port = port;
                ListenAction::Start { backlog: LISTEN_BACKLOG }
            },
            ListenEvent::BindFailed(reason) => ListenAction::Fail(TunnelError::SocketError(reason)),
            ListenEvent::Started => {
                self.listening = true;
                ListenAction::Done
            },
            ListenEvent::StartFailed(reason) => ListenAction::Fail(
                TunnelError::SocketError(reason),
            ),
        }
    }

    /// Plans the handshake for a raw connection from the given peer.
    pub fn try_accept(&self, peer_host: String, peer_port: u16) -> (r: Result<
        HandshakePlan,
        TunnelError,
    >)
        ensures
            match r {
                Ok(plan) => accept_plan(self@.addr, peer_host@, peer_port) == Ok::<
                    HandshakePlanView,
                    TunnelErrorView,
                >(plan@),
                Err(e) => accept_plan(self@.addr, peer_host@, peer_port) == Err::<
                    HandshakePlanView,
                    TunnelErrorView,
                >(e@),
            },
    {
        let info = TunnelInfo {
            tunnel_type: self.addr.scheme.clone(),
            local_addr: self.local_url(),
            remote_addr: Endpoint {
                scheme: self.addr.scheme.clone(),
                host: peer_host,
                port: peer_port,
            },
        };
        match is_wss(&self.addr) {
            Ok(secure) => Ok(HandshakePlan { secure, info }),
            Err(e) => Err(e),
        }
    }

    /// One step of accepting a tunnel. Accepting before `listen` has
    /// succeeded is a mistake of the caller.
    pub fn accept(&self, event: AcceptEvent) -> (action: AcceptAction)
        requires
            self@.listening,
        ensures
            action@ == accept_next(self@, event@),
    {
        match event {
            AcceptEvent::Requested => AcceptAction::AcceptRaw,
            AcceptEvent::RawAccepted { peer_host, peer_port } => match self.try_accept(
                peer_host,
                peer_port,
            ) {
                Ok(plan) => AcceptAction::Upgrade(plan),
                Err(e) => AcceptAction::DropAndAcceptRaw(e),
            },
            AcceptEvent::PeerUnknown(reason) => AcceptAction::DropAndAcceptRaw(
                TunnelError::SocketError(reason),
            ),
            AcceptEvent::RawFailed(reason) => AcceptAction::Fail(TunnelError::SocketError(reason)),
            AcceptEvent::Upgraded(plan) => AcceptAction::Deliver(plan.info),
            AcceptEvent::UpgradeFailed(failure) => AcceptAction::DropAndAcceptRaw(
                failure.into_error(),
            ),
        }
    }
}

/// A listener reports the port that the operating system gave it: once a
/// socket was bound at `port` and made to listen, the listener listens, and
/// its local endpoint is the one it was made with but for the port, which is
/// `port`. So a listener made with port 0 reports a port other than 0 as soon
/// as the operating system assigned one.
pub proof fn lemma_listen_reports_bound_port(pre: ListenerView, port: u16)
    ensures
        ({
            let (bound, first) = listen_next(pre, ListenEventView::Bound(port));
            let (done, second) = listen_next(bound, ListenEventView::Started);
            &&& first == ListenActionView::Start { backlog: LISTEN_BACKLOG }
            &&& second == ListenActionView::Done
            &&& done.listening
            &&& done.addr == EndpointView { port, ..pre.addr }
            &&& port != 0 ==> done.addr.port != 0
        }),
{
}

/// No step of `listen` changes the scheme or the host of the local endpoint.
pub proof fn lemma_listen_keeps_scheme_and_host(pre: ListenerView, event: ListenEventView)
    ensures
        listen_next(pre, event).0.addr.scheme == pre.addr.scheme,
        listen_next(pre, event).0.addr.host == pre.addr.host,
{
}

/// No step of `listen` makes a listener that listens stop listening.
pub proof fn lemma_listen_keeps_listening(pre: ListenerView, event: ListenEventView)
    requires
        pre.listening,
    ensures
        listen_next(pre, event).0.listening,
{
}

/// A step of `listen` that fails leaves the listener as it was.
pub proof fn lemma_failed_listen_changes_nothing(pre: ListenerView, event: ListenEventView)
    requires
        listen_next(pre, event).1 is Fail,
    ensures
        listen_next(pre, event).0 == pre,
{
}

/// `accept` ends with an error only when the listening socket itself failed,
/// and with a tunnel only when a handshake succeeded; after any other event
/// the caller goes on, with a handshake or with the next raw connection.
pub proof fn lemma_accept_endings(listener: ListenerView, event: AcceptEventView)
    ensures
        accept_next(listener, event) is Fail <==> event is RawFailed,
        accept_next(listener, event) is Deliver <==> event is Upgraded,
{
}

/// One failed handshake does not keep a listener of a known scheme from
/// accepting the next connection: the failure sends the caller back to
/// accepting, the next raw connection is answered with a handshake, and when
/// that handshake succeeds the tunnel is delivered, from the listener's
/// endpoint to the new peer.
pub proof fn lemma_accept_survives_failed_handshake(
    listener: ListenerView,
    failure: HandshakeFailureView,
    peer_host: Seq<char>,
    peer_port: u16,
)
    requires
        scheme_security(listener.addr.scheme) is Some,
    ensures
        accept_next(listener, AcceptEventView::UpgradeFailed(failure))
            == AcceptActionView::DropAndAcceptRaw(failure_error(failure)),
        accept_next(listener, AcceptEventView::RawAccepted { peer_host, peer_port })
            matches AcceptActionView::Upgrade(plan) && {
            &&& Some(plan.secure) == scheme_security(listener.addr.scheme)
            &&& plan.info.local_addr == listener.addr
            &&& plan.info.remote_addr.host == peer_host
            &&& plan.info.remote_addr.port == peer_port
            &&& accept_next(listener, AcceptEventView::Upgraded(plan))
                == AcceptActionView::Deliver(plan.info)
        },
{
}

/// What `accept` ends with when its events come in the given order: the
/// answer to the first event that ends it, `None` where no event does.
pub open spec fn accept_outcome(listener: ListenerView, events: Seq<AcceptEventView>) -> Option<
    AcceptActionView,
>
    decreases events.len(),
{
    if events.len() == 0 {
        None
    } else {
        let action = accept_next(listener, events[0]);
        if action is Deliver || action is Fail {
            Some(action)
        } else {
            accept_outcome(listener, events.subrange(1, events.len() as int))
        }
    }
}

/// However many connections were dropped on the way: `accept` ends at the
/// first event that reports a handshake that succeeded or a failure of the
/// listening socket, with the tunnel of the one and the error of the other.
pub proof fn lemma_accept_outcome(listener: ListenerView, events: Seq<AcceptEventView>, i: int)
    requires
        0 <= i < events.len(),
        events[i] is Upgraded || events[i] is RawFailed,
        forall|j: int| 0 <= j < i ==> !(events[j] is Upgraded) && !(events[j] is RawFailed),
    ensures
        accept_outcome(listener, events) == Some(accept_next(listener, events[i])),
    decreases i,
{
    lemma_accept_endings(listener, events[0]);
    if i > 0 {
        let rest = events.subrange(1, events.len() as int);
        assert(rest[i - 1] == events[i]);
        assert forall|j: int| 0 <= j < i - 1 implies !(rest[j] is Upgraded) && !(rest[j]
            is RawFailed) by {
            assert(rest[j] == events[j + 1]);
        }
        lemma_accept_outcome(listener, rest, i - 1);
    }
}

} // verus!
