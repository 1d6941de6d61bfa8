//! The unidirectional stream types that a WebTransport session reads
//! directly off an accepted stream.
use crate::buffers::bytes_mut_contents;
use crate::coding::{encode_varint, VarInt};
use crate::quic::quic_encode_varint;
use bytes::BytesMut;
use vstd::prelude::*;

verus! {

/// The type of a unidirectional stream.
#[derive(PartialEq, Eq, Debug)]
pub struct UniStream(pub VarInt);

impl UniStream {
    /// The control stream (0x00).
    pub fn control() -> (r: UniStream)
        ensures
            r.0@ == 0x00,
    {
        UniStream(VarInt::from_u32(0x00))
    }

    /// A WebTransport unidirectional stream (0x54).
    pub fn webtransport() -> (r: UniStream)
        ensures
            r.0@ == 0x54,
    {
        UniStream(VarInt::from_u32(0x54))
    }

    /// Appends the stream type, as a varint, to `buffer`.
    pub fn encode(&self, buffer: &mut BytesMut)
        requires
            bytes_mut_contents(*old(buffer)).len() + 8 <= isize::MAX,
        ensures
            bytes_mut_contents(*final(buffer)) == bytes_mut_contents(*old(buffer)) + encode_varint(
                self.0@,
            ),
    {
        quic_encode_varint(buffer, self.0.into_inner());
    }
}

} // verus!
