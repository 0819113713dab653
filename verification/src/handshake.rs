//! What a per-connection handshake is asked to do, and how it can fail.

use crate::endpoint::{TunnelInfo, TunnelInfoView};
use crate::error::{TunnelError, TunnelErrorView};
use vstd::prelude::*;

verus! {

/// The handshake to perform on one raw connection.
#[derive(Debug)]
pub struct HandshakePlan {
    /// Whether the connection is upgraded to TLS before the WebSocket
    /// handshake.
    pub secure: bool,
    /// What will describe the tunnel once the handshake has succeeded.
    pub info: TunnelInfo,
}

/// A handshake plan over the view of its tunnel description.
pub ghost struct HandshakePlanView {
    pub secure: bool,
    pub info: TunnelInfoView,
}

impl View for HandshakePlan {
    type V = HandshakePlanView;

    open spec fn view(&self) -> HandshakePlanView {
        HandshakePlanView { secure: self.secure, info: self.info@ }
    }
}

/// The stage at which a handshake failed, with the reason as the transport
/// gave it.
#[derive(Debug)]
pub enum HandshakeFailure {
    Tls(String),
    Transport(String),
}

/// A handshake failure with its reason taken as a sequence of characters.
pub ghost enum HandshakeFailureView {
    Tls(Seq<char>),
    Transport(Seq<char>),
}

impl View for HandshakeFailure {
    type V = HandshakeFailureView;

    open spec fn view(&self) -> HandshakeFailureView {
        match self {
            HandshakeFailure::Tls(reason) => HandshakeFailureView::Tls(reason@),
            HandshakeFailure::Transport(reason) => HandshakeFailureView::Transport(reason@),
        }
    }
}

/// The error that a failed handshake is reported as.
pub open spec fn failure_error(failure: HandshakeFailureView) -> TunnelErrorView {
    match failure {
        HandshakeFailureView::Tls(reason) => TunnelErrorView::TlsHandshakeError(reason),
        HandshakeFailureView::Transport(reason) => TunnelErrorView::TransportHandshakeError(
            reason,
        ),
    }
}

impl HandshakeFailure {
    /// Turns the failure into the error that it is reported as.
    pub fn into_error(self) -> (e: TunnelError)
        ensures
            e@ == failure_error(self@),
    {
        match self {
            HandshakeFailure::Tls(reason) => TunnelError::TlsHandshakeError(reason),
            HandshakeFailure::Transport(reason) => TunnelError::TransportHandshakeError(reason),
        }
    }
}

} // verus!
