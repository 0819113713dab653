//! The library driving the real transport, in the plaintext mode: sockets
//! for binding and listening, and in-memory pipes in place of connections.

use bytes::BytesMut;
use futures::{SinkExt, StreamExt};
use tokio::io::{AsyncWriteExt, DuplexStream};
use tokio::net::{TcpListener, TcpSocket};
use tokio_websockets::{ClientBuilder, Limits, ServerBuilder, WebSocketStream};
use ws_tunnel::codec::{sink_from_zc_packet, PacketReceiver};
use ws_tunnel::connector::{ConnectAction, ConnectEvent, WSTunnelConnector};
use ws_tunnel::endpoint::{Endpoint, TunnelInfo};
use ws_tunnel::error::TunnelError;
use ws_tunnel::handshake::HandshakeFailure;
use ws_tunnel::listener::{AcceptAction, AcceptEvent, ListenAction, ListenEvent, WSTunnelListener};
use ws_tunnel::packet::ZCPacket;
use ws_tunnel::resolver::{IpAddress, SocketAddress};

/// The number of a dotted IPv4 address.
fn ipv4_number(text: &str) -> u32 {
    text.split('.').fold(0u32, |n, part| (n << 8) | part.parse::<u32>().unwrap())
}

/// The dotted text of an IPv4 socket address.
fn ipv4_text(addr: SocketAddress) -> String {
    match addr.ip {
        IpAddress::V4(n) => {
            format!("{}.{}.{}.{}:{}", n >> 24, (n >> 16) & 255, (n >> 8) & 255, n & 255, addr.port)
        }
        IpAddress::V6(_) => panic!("these tests stay on IPv4"),
    }
}

async fn resolve(endpoint: &Endpoint) -> Result<Vec<SocketAddress>, String> {
    match tokio::net::lookup_host((endpoint.host.as_str(), endpoint.port)).await {
        Ok(found) => Ok(found
            .filter(|addr| addr.is_ipv4())
            .map(|addr| SocketAddress {
                ip: IpAddress::V4(ipv4_number(&addr.ip().to_string())),
                port: addr.port(),
            })
            .collect()),
        Err(e) => Err(e.to_string()),
    }
}

fn bind(addr: SocketAddress) -> std::io::Result<(TcpSocket, u16)> {
    let socket = TcpSocket::new_v4()?;
    socket.set_reuseaddr(true)?;
    socket.bind(ipv4_text(addr).parse().unwrap())?;
    let port = socket.local_addr()?.port();
    Ok((socket, port))
}

async fn listen(core: &mut WSTunnelListener) -> Result<TcpListener, TunnelError> {
    let mut bound: Option<TcpSocket> = None;
    let mut listener: Option<TcpListener> = None;
    let mut action = core.listen(ListenEvent::Requested);
    loop {
        let event = match action {
            ListenAction::Resolve { endpoint, .. } => match resolve(&endpoint).await {
                Ok(candidates) => ListenEvent::Resolved(candidates),
                Err(reason) => ListenEvent::ResolveFailed(reason),
            },
            ListenAction::Bind { addr } => match bind(addr) {
                Ok((socket, port)) => {
                    bound = Some(socket);
                    ListenEvent::Bound(port)
                }
                Err(e) => ListenEvent::BindFailed(e.to_string()),
            },
            ListenAction::Start { backlog } => match bound.take().unwrap().listen(backlog) {
                Ok(ready) => {
                    listener = Some(ready);
                    ListenEvent::Started
                }
                Err(e) => ListenEvent::StartFailed(e.to_string()),
            },
            ListenAction::Done => return Ok(listener.take().unwrap()),
            ListenAction::Fail(e) => return Err(e),
        };
        action = core.listen(event);
    }
}

/// The listener of the given endpoint, listening without a socket.
fn listening(text: &str) -> WSTunnelListener {
    let mut core = WSTunnelListener::new(Endpoint::parse(text).unwrap());
    let port = core.local_url().port;
    assert!(matches!(core.listen(ListenEvent::Bound(port)), ListenAction::Start { .. }));
    assert!(matches!(core.listen(ListenEvent::Started), ListenAction::Done));
    core
}

/// The next raw connection: the server end of the next pipe.
fn accept_raw(incoming: &mut Vec<DuplexStream>, pending: &mut Option<DuplexStream>) -> AcceptEvent {
    if incoming.is_empty() {
        return AcceptEvent::RawFailed("no more connections".to_string());
    }
    *pending = Some(incoming.remove(0));
    AcceptEvent::RawAccepted { peer_host: "127.0.0.1".to_string(), peer_port: 50000 }
}

/// Runs `accept` to its end over the given raw connections; collects the
/// errors of the connections that were dropped.
async fn accept(
    core: &WSTunnelListener,
    incoming: &mut Vec<DuplexStream>,
    dropped: &mut Vec<TunnelError>,
) -> Result<(TunnelInfo, WebSocketStream<DuplexStream>), TunnelError> {
    assert!(core.is_listening());
    let mut pending: Option<DuplexStream> = None;
    let mut upgraded: Option<WebSocketStream<DuplexStream>> = None;
    let mut action = core.accept(AcceptEvent::Requested);
    loop {
        let event = match action {
            AcceptAction::AcceptRaw => accept_raw(incoming, &mut pending),
            AcceptAction::DropAndAcceptRaw(e) => {
                dropped.push(e);
                pending = None;
                accept_raw(incoming, &mut pending)
            }
            AcceptAction::Upgrade(plan) => {
                assert!(!plan.secure);
                let builder = ServerBuilder::new().limits(Limits::unlimited());
                match builder.accept(pending.take().unwrap()).await {
                    Ok(ws) => {
                        upgraded = Some(ws);
                        AcceptEvent::Upgraded(plan)
                    }
                    Err(e) => AcceptEvent::UpgradeFailed(HandshakeFailure::Transport(e.to_string())),
                }
            }
            AcceptAction::Deliver(info) => return Ok((info, upgraded.take().unwrap())),
            AcceptAction::Fail(e) => return Err(e),
        };
        action = core.accept(event);
    }
}

/// Runs `connect` to its end, with the handshake over the given pipe.
async fn connect_over(
    core: &WSTunnelConnector,
    pipe: DuplexStream,
) -> Result<(TunnelInfo, WebSocketStream<DuplexStream>), TunnelError> {
    let mut pipe = Some(pipe);
    let mut connected = None;
    let mut action = core.connect(ConnectEvent::Requested);
    loop {
        let event = match action {
            ConnectAction::Resolve { endpoint, .. } => ConnectEvent::Resolved(vec![SocketAddress {
                ip: IpAddress::V4(ipv4_number(&endpoint.host)),
                port: endpoint.port,
            }]),
            ConnectAction::Handshake(plan) => {
                assert!(!plan.secure);
                let uri = http::Uri::try_from(plan.info.remote_addr.url_text()).unwrap();
                match ClientBuilder::from_uri(uri).connect_on(pipe.take().unwrap()).await {
                    Ok((ws, _)) => {
                        connected = Some(ws);
                        ConnectEvent::Connected(plan)
                    }
                    Err(e) => ConnectEvent::HandshakeFailed(HandshakeFailure::Transport(e.to_string())),
                }
            }
            ConnectAction::Deliver(info) => return Ok((info, connected.take().unwrap())),
            ConnectAction::Fail(e) => return Err(e),
        };
        action = core.connect(event);
    }
}

/// Runs `connect` to its end over the network.
async fn connect(core: &WSTunnelConnector) -> Result<TunnelInfo, TunnelError> {
    let mut action = core.connect(ConnectEvent::Requested);
    loop {
        let event = match action {
            ConnectAction::Resolve { endpoint, .. } => match resolve(&endpoint).await {
                Ok(candidates) => ConnectEvent::Resolved(candidates),
                Err(reason) => ConnectEvent::ResolveFailed(reason),
            },
            ConnectAction::Handshake(plan) => {
                let uri = http::Uri::try_from(plan.info.remote_addr.url_text()).unwrap();
                match ClientBuilder::from_uri(uri).connect().await {
                    Ok(_) => ConnectEvent::Connected(plan),
                    Err(e) => ConnectEvent::HandshakeFailed(HandshakeFailure::Transport(e.to_string())),
                }
            }
            ConnectAction::Deliver(info) => return Ok(info),
            ConnectAction::Fail(e) => return Err(e),
        };
        action = core.connect(event);
    }
}

fn packet(payload: &[u8]) -> ZCPacket {
    ZCPacket::new_from_buf(BytesMut::from(payload))
}

fn runtime() -> tokio::runtime::Runtime {
    tokio::runtime::Builder::new_current_thread().enable_all().build().unwrap()
}

#[test]
fn loopback_listener_reports_the_assigned_port() {
    runtime().block_on(async {
        let mut core = WSTunnelListener::new(Endpoint::parse("ws://127.0.0.1:0").unwrap());
        let listener = listen(&mut core).await.unwrap();
        let local = core.local_url();
        assert_ne!(local.port, 0);
        assert_eq!(local.port, listener.local_addr().unwrap().port());
        assert_eq!(local.host, "127.0.0.1");
        assert!(core.is_listening());
    });
}

#[test]
fn pipe_ping_pong_and_close() {
    runtime().block_on(async {
        let core = listening("ws://127.0.0.1:25556");
        let (server_end, client_end) = tokio::io::duplex(1 << 16);

        let server = async {
            let mut incoming = vec![server_end];
            let mut dropped = Vec::new();
            let (info, mut ws) = accept(&core, &mut incoming, &mut dropped).await.unwrap();
            assert!(dropped.is_empty());
            assert_eq!(info.tunnel_type, "ws");
            assert_eq!(info.local_addr.url_text(), "ws://127.0.0.1:25556");
            assert_eq!(info.remote_addr.url_text(), "ws://127.0.0.1:50000");

            let mut receiver = PacketReceiver::new();
            let ping = receiver.receive(ws.next().await.unwrap()).unwrap().unwrap();
            assert_eq!(ping.tunnel_payload_bytes().to_vec(), b"ping".to_vec());
            ws.send(sink_from_zc_packet::<()>(packet(b"pong")).unwrap()).await.unwrap();

            // The client closes: the sequence ends, and with no error.
            let mut ended = false;
            while let Some(item) = ws.next().await {
                match receiver.receive(item) {
                    None => ended = true,
                    Some(other) => panic!("unexpected item: {:?}", other),
                }
            }
            assert!(ended);
            assert!(receiver.is_closed());
        };

        let client = async {
            let connector =
                WSTunnelConnector::new(Endpoint::parse("ws://127.0.0.1:25556").unwrap());
            let (info, mut ws) = connect_over(&connector, client_end).await.unwrap();
            assert_eq!(info.tunnel_type, "ws");
            assert_eq!(info.remote_addr.url_text(), "ws://127.0.0.1:25556");
            assert_eq!(info.local_addr.url_text(), "ws://0.0.0.0:0");

            ws.send(sink_from_zc_packet::<()>(packet(b"ping")).unwrap()).await.unwrap();
            let mut receiver = PacketReceiver::new();
            let pong = receiver.receive(ws.next().await.unwrap()).unwrap().unwrap();
            assert_eq!(pong.tunnel_payload_bytes().to_vec(), b"pong".to_vec());
            ws.close().await.unwrap();
        };

        futures::future::join(server, client).await;
    });
}

#[test]
fn pipe_large_packet_crosses_unchanged() {
    runtime().block_on(async {
        let core = listening("ws://127.0.0.1:25556");
        let (server_end, client_end) = tokio::io::duplex(1 << 12);
        let payload: Vec<u8> = (0..300_000usize).map(|i| (i % 253) as u8).collect();

        let server = async {
            let mut incoming = vec![server_end];
            let mut dropped = Vec::new();
            let (_, mut ws) = accept(&core, &mut incoming, &mut dropped).await.unwrap();
            let mut receiver = PacketReceiver::new();
            let got = receiver.receive(ws.next().await.unwrap()).unwrap().unwrap();
            assert_eq!(got.tunnel_payload_bytes().to_vec(), payload);
        };

        let client = async {
            let connector =
                WSTunnelConnector::new(Endpoint::parse("ws://127.0.0.1:25556").unwrap());
            let (_, mut ws) = connect_over(&connector, client_end).await.unwrap();
            ws.send(sink_from_zc_packet::<()>(packet(&payload)).unwrap()).await.unwrap();
        };

        futures::future::join(server, client).await;
    });
}

#[test]
fn pipe_listener_survives_garbage() {
    runtime().block_on(async {
        let core = listening("ws://127.0.0.1:25556");
        let (first_server_end, mut first_client_end) = tokio::io::duplex(1 << 16);
        let (second_server_end, second_client_end) = tokio::io::duplex(1 << 16);

        let server = async {
            let mut incoming = vec![first_server_end, second_server_end];
            let mut dropped = Vec::new();
            let (info, _ws) = accept(&core, &mut incoming, &mut dropped).await.unwrap();
            assert_eq!(dropped.len(), 1);
            assert!(matches!(dropped[0], TunnelError::TransportHandshakeError(_)));
            assert!(incoming.is_empty());
            assert_eq!(info.tunnel_type, "ws");
        };

        let clients = async {
            first_client_end.write_all(b"this is no upgrade request\r\n\r\n").await.unwrap();
            first_client_end.shutdown().await.unwrap();

            let connector =
                WSTunnelConnector::new(Endpoint::parse("ws://127.0.0.1:25556").unwrap());
            connect_over(&connector, second_client_end).await.unwrap();
        };

        futures::future::join(server, clients).await;
    });
}

#[test]
fn pipe_accept_fails_when_the_socket_fails() {
    runtime().block_on(async {
        let core = listening("ws://127.0.0.1:25556");
        let mut incoming = Vec::new();
        let mut dropped = Vec::new();
        match accept(&core, &mut incoming, &mut dropped).await {
            Err(TunnelError::SocketError(reason)) => assert_eq!(reason, "no more connections"),
            other => panic!("unexpected outcome: {:?}", other.map(|(info, _)| info)),
        }
        assert!(dropped.is_empty());
    });
}

#[test]
fn pipe_connect_fails_against_a_peer_that_hangs_up() {
    runtime().block_on(async {
        let (server_end, client_end) = tokio::io::duplex(1 << 16);
        drop(server_end);
        let connector = WSTunnelConnector::new(Endpoint::parse("ws://127.0.0.1:25556").unwrap());
        assert!(matches!(
            connect_over(&connector, client_end).await.map(|(info, _)| info),
            Err(TunnelError::TransportHandshakeError(_))
        ));
    });
}

#[test]
fn loopback_connect_fails_where_nothing_listens() {
    runtime().block_on(async {
        let mut core = WSTunnelListener::new(Endpoint::parse("ws://127.0.0.1:0").unwrap());
        let listener = listen(&mut core).await.unwrap();
        let port = core.local_url().port;
        drop(listener);

        let connector =
            WSTunnelConnector::new(Endpoint::parse(&format!("ws://127.0.0.1:{}", port)).unwrap());
        assert!(matches!(
            connect(&connector).await,
            Err(TunnelError::TransportHandshakeError(_))
        ));
    });
}
