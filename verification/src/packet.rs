//! The packet: an opaque buffer of payload bytes.

use bytes::{Bytes, BytesMut};
use vstd::prelude::*;

verus! {

/// `bytes::BytesMut`, a uniquely owned byte buffer.
#[verifier::external_type_specification]
#[verifier::external_body]
pub struct ExBytesMut(BytesMut);

/// `bytes::Bytes`, a shared immutable byte buffer.
#[verifier::external_type_specification]
#[verifier::external_body]
pub struct ExBytes(Bytes);

/// The bytes that a `BytesMut` holds, first to last.
pub uninterp spec fn bytes_mut_contents(buf: BytesMut) -> Seq<u8>;

/// The bytes that a `Bytes` holds, first to last.
pub uninterp spec fn bytes_contents(buf: Bytes) -> Seq<u8>;

/// `BytesMut::freeze` turns the buffer into an immutable one that holds the
/// same bytes.
pub assume_specification[ BytesMut::freeze ](buf: BytesMut) -> (frozen: Bytes)
    ensures
        bytes_contents(frozen) == bytes_mut_contents(buf),
;

/// `BytesMut::from` on a byte slice copies the slice into a new buffer.
#[verifier::external_body]
pub(crate) fn bytes_mut_from_slice(src: &[u8]) -> (buf: BytesMut)
    ensures
        bytes_mut_contents(buf) == src@,
{
    BytesMut::from(src)
}

/// A packet as the tunnel sees it: the payload bytes and nothing else.
#[derive(Debug)]
pub struct ZCPacket {
    inner: BytesMut,
}

impl View for ZCPacket {
    type V = Seq<u8>;

    closed spec fn view(&self) -> Seq<u8> {
        bytes_mut_contents(self.inner)
    }
}

impl ZCPacket {
    /// The packet whose payload is what `buf` holds.
    pub fn new_from_buf(buf: BytesMut) -> (packet: ZCPacket)
        ensures
            packet@ == bytes_mut_contents(buf),
    {
        ZCPacket { inner: buf }
    }

    /// Gives up the packet for its payload.
    pub fn tunnel_payload_bytes(self) -> (buf: BytesMut)
        ensures
            bytes_mut_contents(buf) == self@,
    {
        self.inner
    }
}

} // verus!
