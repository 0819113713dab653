//! Packets to WebSocket messages and back.
//!
//! Outbound, a packet becomes one binary message. Inbound, every message is
//! classified: a close message ends the sequence of packets, a binary message
//! is a packet, any other message is a protocol violation, and a failed read
//! is passed on as a transport error.

use crate::error::{TunnelError, TunnelErrorView};
use crate::packet::{bytes_contents, bytes_mut_contents, bytes_mut_from_slice, ZCPacket};
use bytes::Bytes;
use tokio_websockets::{Error, Message, Payload};
use vstd::prelude::*;

verus! {

/// `tokio_websockets::Message`, one assembled WebSocket message.
#[verifier::external_type_specification]
#[verifier::external_body]
pub struct ExMessage(Message);

/// `tokio_websockets::Payload`, the payload storage of a message.
#[verifier::external_type_specification]
#[verifier::external_body]
pub struct ExPayload(Payload);

/// The payload bytes of a message.
pub uninterp spec fn message_payload(msg: Message) -> Seq<u8>;

/// Whether a message has the close opcode.
pub uninterp spec fn message_is_close(msg: Message) -> bool;

/// Whether a message has the binary opcode.
pub uninterp spec fn message_is_binary(msg: Message) -> bool;

/// The bytes that a `Payload` holds.
pub uninterp spec fn payload_contents(payload: Payload) -> Seq<u8>;

/// `Message::binary` builds a message with the binary opcode around the given
/// bytes.
#[verifier::external_body]
fn binary_message(payload: Bytes) -> (msg: Message)
    ensures
        message_is_binary(msg),
        !message_is_close(msg),
        message_payload(msg) == bytes_contents(payload),
{
    Message::binary(payload)
}

/// `Message::is_close` tells whether the opcode is close.
pub assume_specification[ Message::is_close ](msg: &Message) -> (b: bool)
    ensures
        b == message_is_close(*msg),
;

/// `Message::is_binary` tells whether the opcode is binary.
pub assume_specification[ Message::is_binary ](msg: &Message) -> (b: bool)
    ensures
        b == message_is_binary(*msg),
;

/// `Message::into_payload` hands out the payload of the message, whatever
/// its opcode.
pub assume_specification[ Message::into_payload ](msg: Message) -> (payload: Payload)
    ensures
        payload_contents(payload) == message_payload(msg),
;

/// A `Payload` dereferences to the slice of its bytes, and `as_bytes` of
/// zerocopy on a byte slice is that slice.
#[verifier::external_body]
fn payload_as_bytes(payload: &Payload) -> (bytes: &[u8])
    ensures
        bytes@ == payload_contents(*payload),
{
    zerocopy::AsBytes::as_bytes(&payload[..])
}

/// The `Debug` rendering of a message, written to a string. It shows how the
/// payload is stored at the moment, so nothing is claimed of the text.
#[verifier::external_body]
fn describe_message(msg: &Message) -> (text: String) {
    format!("{:?}", msg)
}

/// Whether `msg` is the binary message that carries `payload`.
pub open spec fn encodes(msg: Message, payload: Seq<u8>) -> bool {
    &&& message_is_binary(msg)
    &&& !message_is_close(msg)
    &&& message_payload(msg) == payload
}

/// What an inbound item is.
pub ghost enum Inbound {
    /// The peer has closed: the sequence of packets ends here, without error.
    Closed,
    /// A packet with this payload.
    Packet(Seq<u8>),
    /// A message that is neither a close nor a binary message.
    Invalid,
    /// The read failed with this error.
    Failed(Error),
}

/// Classifies an inbound item: a failed read first, then a close message,
/// then anything that is not binary, and what is left is a packet.
pub open spec fn classify(inbound: Result<Message, Error>) -> Inbound {
    match inbound {
        Err(e) => Inbound::Failed(e),
        Ok(msg) => if message_is_close(msg) {
            Inbound::Closed
        } else if !message_is_binary(msg) {
            Inbound::Invalid
        } else {
            Inbound::Packet(message_payload(msg))
        },
    }
}

/// Whether `outcome` is what the sequence of packets yields for an inbound
/// item of this kind: nothing where the sequence ends, else the packet or
/// the error.
pub open spec fn yields(outcome: Option<Result<ZCPacket, TunnelError>>, what: Inbound) -> bool {
    match what {
        Inbound::Closed => outcome is None,
        Inbound::Packet(payload) => outcome matches Some(Ok(packet)) && packet@ == payload,
        Inbound::Invalid => outcome matches Some(Err(e)) && e is InvalidPacket,
        Inbound::Failed(failure) => outcome matches Some(Err(e)) && e@
            == TunnelErrorView::TransportError(failure),
    }
}

/// What a receiver makes of an inbound item: once the peer has closed,
/// whatever still arrives counts as the end of the sequence.
pub open spec fn received(closed: bool, inbound: Result<Message, Error>) -> Inbound {
    if closed {
        Inbound::Closed
    } else {
        classify(inbound)
    }
}

/// Whether the peer has closed somewhere in `items`.
pub open spec fn closed_after(items: Seq<Result<Message, Error>>) -> bool
    decreases items.len(),
{
    if items.len() == 0 {
        false
    } else {
        closed_after(items.drop_last()) || classify(items.last()) is Closed
    }
}

/// Wraps the payload of a packet as one binary message. Never fails.
pub fn sink_from_zc_packet<E>(msg: ZCPacket) -> (r: Result<Message, E>)
    ensures
        r is Ok,
        encodes(r->Ok_0, msg@),
{
    Ok(binary_message(msg.tunnel_payload_bytes().freeze()))
}

/// Turns one inbound item of a connection into what the packet sequence
/// yields for it: `None` ends the sequence, since the peer has closed; an
/// `InvalidPacket` error holds a description of the offending message.
pub fn map_from_ws_message(msg: Result<Message, Error>) -> (r: Option<
    Result<ZCPacket, TunnelError>,
>)
    ensures
        yields(r, classify(msg)),
{
    match msg {
        Err(e) => Some(Err(TunnelError::TransportError(e))),
        Ok(msg) => {
            if msg.is_close() {
                return None;
            }
            if !msg.is_binary() {
                return Some(Err(TunnelError::InvalidPacket(describe_message(&msg))));
            }
            let payload = msg.into_payload();
            Some(Ok(ZCPacket::new_from_buf(bytes_mut_from_slice(payload_as_bytes(&payload)))))
        },
    }
}

/// Round trip: the message that a packet was wrapped into is read back as a
/// packet with the same payload, whatever the payload's length.
pub proof fn lemma_round_trip(payload: Seq<u8>, msg: Message)
    requires
        encodes(msg, payload),
    ensures
        classify(Ok(msg)) == Inbound::Packet(payload),
{
}

/// The receiving end of one connection. It remembers whether the peer has
/// closed: from then on the sequence of packets has ended, and nothing that
/// the transport still hands over is yielded, not even an error.
#[derive(Debug)]
pub struct PacketReceiver {
    closed: bool,
}

impl PacketReceiver {
    /// Whether the peer has closed.
    pub closed spec fn closed(&self) -> bool {
        self.closed
    }

    /// The receiver of a connection that was just established.
    pub fn new() -> (receiver: PacketReceiver)
        ensures
            !receiver.closed(),
    {
        PacketReceiver { closed: false }
    }

    /// Whether the sequence of packets has ended.
    pub fn is_closed(&self) -> (b: bool)
        ensures
            b == self.closed(),
    {
        self.closed
    }

    /// Takes the next inbound item and gives what the sequence of packets
    /// yields for it; `None` is the end of the sequence.
    pub fn receive(&mut self, inbound: Result<Message, Error>) -> (r: Option<
        Result<ZCPacket, TunnelError>,
    >)
        ensures
            yields(r, received(old(self).closed(), inbound)),
            final(self).closed() == (old(self).closed() || classify(inbound) is Closed),
    {
        if self.closed {
            return None;
        }
        let outcome = map_from_ws_message(inbound);
        if outcome.is_none() {
            self.closed = true;
        }
        outcome
    }
}

/// A receiver that has taken items among which there is a close message is
/// closed.
pub proof fn lemma_closed_after_close(items: Seq<Result<Message, Error>>, i: int)
    requires
        0 <= i < items.len(),
        classify(items[i]) is Closed,
    ensures
        closed_after(items),
    decreases items.len(),
{
    if i < items.len() - 1 {
        assert(items.drop_last()[i] == items[i]);
        lemma_closed_after_close(items.drop_last(), i);
    }
}

/// A graceful close ends the sequence of packets: whatever arrives after the
/// close message, be it a failed read, yields nothing.
pub proof fn lemma_nothing_after_close(items: Seq<Result<Message, Error>>, i: int, k: int)
    requires
        0 <= i < k < items.len(),
        classify(items[i]) is Closed,
    ensures
        received(closed_after(items.take(k)), items[k]) is Closed,
{
    assert(items.take(k)[i] == items[i]);
    lemma_closed_after_close(items.take(k), i);
}

/// As long as no close message has arrived, the receiver is open and every
/// inbound item is yielded as it is classified.
pub proof fn lemma_before_close(items: Seq<Result<Message, Error>>, k: int)
    requires
        0 <= k < items.len(),
        forall|i: int| 0 <= i < k ==> !(classify(#[trigger] items[i]) is Closed),
    ensures
        !closed_after(items.take(k)),
        received(closed_after(items.take(k)), items[k]) == classify(items[k]),
    decreases k,
{
    if k > 0 {
        lemma_before_close(items, k - 1);
        assert(items.take(k).drop_last() =~= items.take(k - 1));
        assert(items.take(k).last() == items[k - 1]);
    }
}

} // verus!
