//! The parts of `quinn` (and of `quinn-proto`, which `quinn` re-exports) that
//! the verified code touches: the types it carries through, and the few calls
//! it makes, each behind a wrapper whose contract is trusted.
use crate::buffers::bytes_mut_contents;
use crate::coding::encode_varint;
use bytes::BytesMut;
use quinn_proto::coding::Codec;
use vstd::prelude::*;

verus! {

#[verifier::external_type_specification]
#[verifier::external_body]
pub struct ExVarIntBoundsExceeded(quinn::VarIntBoundsExceeded);

#[verifier::external_type_specification]
#[verifier::external_body]
pub struct ExReadExactError(quinn::ReadExactError);

#[verifier::external_type_specification]
#[verifier::external_body]
pub struct ExReadError(quinn::ReadError);

#[verifier::external_type_specification]
#[verifier::external_body]
pub struct ExWriteError(quinn::WriteError);

#[verifier::external_type_specification]
#[verifier::external_body]
pub struct ExConnectionError(quinn::ConnectionError);

#[verifier::external_type_specification]
#[verifier::external_body]
pub struct ExConnectError(quinn::ConnectError);

#[verifier::external_type_specification]
#[verifier::external_body]
pub struct ExSendDatagramError(quinn::SendDatagramError);

#[verifier::external_type_specification]
#[verifier::external_body]
pub struct ExSendStream(quinn::SendStream);

#[verifier::external_type_specification]
#[verifier::external_body]
pub struct ExRecvStream(quinn::RecvStream);

/// `quinn::VarInt::from_u64`, followed by `into_inner` on success: the source
/// returns `Ok` exactly when `x < 2^62`, holding `x` unchanged, and
/// `Err(VarIntBoundsExceeded)` otherwise.
#[verifier::external_body]
pub fn quic_varint_from_u64(x: u64) -> (r: Result<u64, quinn::VarIntBoundsExceeded>)
    ensures
        r is Ok <==> x < 0x4000_0000_0000_0000,
        r matches Ok(v) ==> v == x,
{
    match quinn::VarInt::from_u64(x) {
        Ok(v) => Ok(v.into_inner()),
        Err(e) => Err(e),
    }
}

/// `Codec::encode` of the `quinn_proto::VarInt` that holds `x` (what
/// `BufMutExt::write_var` does): appends the QUIC variable-length encoding of
/// `x`, the same bytes that `encode_varint` describes (the source writes
/// `put_u8`, `put_u16`, `put_u32` or `put_u64` of the tagged value, by the
/// size of `x`). `from_u64(x).unwrap()` panics for `x >= 2^62`, which
/// `requires` rules out.
#[verifier::external_body]
pub fn quic_encode_varint(buf: &mut BytesMut, x: u64)
    requires
        x < 0x4000_0000_0000_0000,
        bytes_mut_contents(*old(buf)).len() + 8 <= isize::MAX,
    ensures
        bytes_mut_contents(*final(buf)) == bytes_mut_contents(*old(buf)) + encode_varint(x),
{
    quinn::VarInt::from_u64(x).unwrap().encode(buf)
}

/// The id of the stream that a send-stream handle writes to: a field of the
/// handle, which `SendStream::id` returns.
pub uninterp spec fn send_stream_id(s: quinn::SendStream) -> u64;

/// `quinn::VarInt::from(stream.id())`, then `into_inner`: the stream's id as
/// an integer, `send_stream_id` of the handle. Which id a stream got depends
/// on the connection, so the name is all that is said of its value besides
/// its bound: the `From<StreamId>` impl builds the `VarInt` with
/// `from_u64_unchecked`, whose safety condition is that the value is below
/// `2^62` (stream counts are capped at `2^60`).
#[verifier::external_body]
pub fn quic_send_stream_id(stream: &quinn::SendStream) -> (r: u64)
    ensures
        r == send_stream_id(*stream),
        r < 0x4000_0000_0000_0000,
{
    quinn::VarInt::from(stream.id()).into_inner()
}

} // verus!
