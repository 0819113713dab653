//! Packet tunnels over WebSocket: the decisions of a listener and of a
//! connector, and the conversion between packets and transport messages.
//!
//! The crate holds no socket and awaits nothing. Every operation that waits on
//! the network is split in two: the library says what has to be done next
//! (an action), the caller does it and reports how it ended (an event).

pub mod codec;
pub mod connector;
pub mod endpoint;
pub mod error;
pub mod handshake;
pub mod listener;
pub mod packet;
pub mod resolver;
pub mod url_text;
