//! Stream types: the varint that opens every unidirectional HTTP/3 stream
//! (RFC 9114, section 6.2) and every WebTransport bidirectional stream.
use crate::buffers::bytes_mut_contents;
use crate::coding::{encode_varint, VarInt};
use crate::h3::H3Error;
use crate::quic::quic_encode_varint;
use bytes::BytesMut;
use vstd::prelude::*;

verus! {

/// The type of a unidirectional stream.
#[derive(PartialEq, Eq, Debug, Clone)]
pub struct UniStream(pub VarInt);

/// The signal value that opens a bidirectional stream.
#[derive(PartialEq)]
pub struct BiStream(pub VarInt);

impl UniStream {
    /// The control stream (0x00).
    pub fn control() -> (r: UniStream)
        ensures
            r.0@ == 0x00,
    {
        UniStream(VarInt::from_u32(0x00))
    }

    /// A push stream (0x01).
    pub fn push() -> (r: UniStream)
        ensures
            r.0@ == 0x01,
    {
        UniStream(VarInt::from_u32(0x01))
    }

    /// The QPACK encoder stream (0x02).
    pub fn qpack_encoder() -> (r: UniStream)
        ensures
            r.0@ == 0x02,
    {
        UniStream(VarInt::from_u32(0x02))
    }

    /// The QPACK decoder stream (0x03).
    pub fn qpack_decoder() -> (r: UniStream)
        ensures
            r.0@ == 0x03,
    {
        UniStream(VarInt::from_u32(0x03))
    }

    /// A WebTransport unidirectional stream (0x54).
    pub fn webtransport() -> (r: UniStream)
        ensures
            r.0@ == 0x54,
    {
        UniStream(VarInt::from_u32(0x54))
    }

    /// Appends the stream type, as a varint, to `buffer`.
    pub fn encode(&self, buffer: &mut BytesMut)
        requires
            bytes_mut_contents(*old(buffer)).len() + 8 <= isize::MAX,
        ensures
            bytes_mut_contents(*final(buffer)) == bytes_mut_contents(*old(buffer)) + encode_varint(
                self.0@,
            ),
    {
        quic_encode_varint(buffer, self.0.into_inner());
    }
}

impl BiStream {
    /// A WebTransport bidirectional stream (0x41).
    pub fn webtransport() -> (r: BiStream)
        ensures
            r.0@ == 0x41,
    {
        BiStream(VarInt::from_u32(0x41))
    }

    /// Appends the signal value, as a varint, to `buffer`.
    pub fn encode(&self, buffer: &mut BytesMut)
        requires
            bytes_mut_contents(*old(buffer)).len() + 8 <= isize::MAX,
        ensures
            bytes_mut_contents(*final(buffer)) == bytes_mut_contents(*old(buffer)) + encode_varint(
                self.0@,
            ),
    {
        quic_encode_varint(buffer, self.0.into_inner());
    }

    /// What accepting a bidirectional stream decides once its first varint
    /// is read: only the WebTransport signal value is accepted.
    pub fn check_header(&self) -> (r: Result<(), H3Error>)
        ensures
            r is Ok <==> self.0@ == 0x41,
            r is Err ==> r == Err::<(), H3Error>(
                H3Error::ProtocolError("Recevied Unknown Header on BiStream"),
            ),
    {
        if self.0.into_inner() != BiStream::webtransport().0.into_inner() {
            return Err(H3Error::ProtocolError("Recevied Unknown Header on BiStream"));
        }
        Ok(())
    }
}

} // verus!
