//! The errors of a tunnel.

use vstd::prelude::*;

verus! {

/// The error of the WebSocket transport; carried through, never inspected.
#[verifier::external_type_specification]
#[verifier::external_body]
pub struct ExTransportFailure(tokio_websockets::Error);

/// Why a tunnel operation failed.
#[derive(Debug)]
pub enum TunnelError {
    /// The scheme of an endpoint names no known transport mode; holds the scheme.
    InvalidProtocol(String),
    /// No socket address could be had for an endpoint.
    ResolutionError(String),
    /// Binding, listening or accepting failed at the level of the operating system.
    SocketError(String),
    /// The TLS upgrade of a connection failed.
    TlsHandshakeError(String),
    /// The WebSocket upgrade of a connection failed.
    TransportHandshakeError(String),
    /// An inbound message was not a binary message; holds a description of it.
    InvalidPacket(String),
    /// Reading from an established connection failed.
    TransportError(tokio_websockets::Error),
}

/// A `TunnelError` with its strings taken as sequences of characters.
pub ghost enum TunnelErrorView {
    InvalidProtocol(Seq<char>),
    ResolutionError(Seq<char>),
    SocketError(Seq<char>),
    TlsHandshakeError(Seq<char>),
    TransportHandshakeError(Seq<char>),
    InvalidPacket(Seq<char>),
    TransportError(tokio_websockets::Error),
}

impl View for TunnelError {
    type V = TunnelErrorView;

    open spec fn view(&self) -> TunnelErrorView {
        match self {
            TunnelError::InvalidProtocol(s) => TunnelErrorView::InvalidProtocol(s@),
            TunnelError::ResolutionError(s) => TunnelErrorView::ResolutionError(s@),
            TunnelError::SocketError(s) => TunnelErrorView::SocketError(s@),
            TunnelError::TlsHandshakeError(s) => TunnelErrorView::TlsHandshakeError(s@),
            TunnelError::TransportHandshakeError(s) => TunnelErrorView::TransportHandshakeError(s@),
            TunnelError::InvalidPacket(s) => TunnelErrorView::InvalidPacket(s@),
            TunnelError::TransportError(e) => TunnelErrorView::TransportError(*e),
        }
    }
}

} // verus!
