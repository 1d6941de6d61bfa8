//! HTTP/3 frames (RFC 9114, section 7): a varint type, a varint length and
//! that many bytes of payload.
use crate::buffers::{bytes_contents, bytes_len, bytes_mut_contents, bytes_mut_put_bytes};
use crate::coding::{
    decode_varint, encode_varint, lemma_varint_roundtrip, varint_size, VarInt, VarIntMutExt,
    VARINT_BOUND,
};
use bytes::{Bytes, BytesMut};
use vstd::prelude::*;

verus! {

/// An HTTP/3 frame type.
#[derive(PartialEq, Eq)]
pub struct Frame(pub VarInt);

/// Whether a frame or setting type is reserved for greasing
/// (`0x1f * N + 0x21`, RFC 9114 sections 7.2.8 and 7.2.4.1): such types
/// carry no meaning and are ignored.
pub open spec fn is_grease_type(t: u64) -> bool {
    t >= 0x21 && (t - 0x21) % 0x1f == 0
}

/// The name under which a frame type is shown in logs.
pub open spec fn frame_debug_name(t: u64) -> &'static str {
    if t == 0x00 {
        "Frame::DATA"
    } else if t == 0x01 {
        "Frame::HEADERS"
    } else if t == 0x03 {
        "Frame::CANCEL_PUSH"
    } else if t == 0x04 {
        "Frame::SETTINGS"
    } else if t == 0x05 {
        "Frame::PUSH_PROMISE"
    } else if t == 0x07 {
        "Frame::GOAWAY"
    } else if t == 0x0d {
        "Frame::MAX_PUSH_ID"
    } else {
        "Frame::UNKNOWN"
    }
}

/// The bytes of a frame of type `t` carrying `payload`.
pub open spec fn encode_frame(t: u64, payload: Seq<u8>) -> Seq<u8> {
    encode_varint(t) + encode_varint(payload.len() as u64) + payload
}

/// A frame reads back as written: from the bytes of a frame of type `t`
/// carrying `payload`, whatever follows, the first varint is `t`, the
/// second is the payload's length, and the payload comes next.
pub proof fn lemma_frame_roundtrip(t: u64, payload: Seq<u8>, rest: Seq<u8>)
    requires
        t < VARINT_BOUND,
        payload.len() < VARINT_BOUND,
    ensures
        ({
            let s = encode_frame(t, payload) + rest;
            let n = varint_size(t);
            let m = varint_size(payload.len() as u64);
            &&& decode_varint(s) == Some((t, n))
            &&& decode_varint(s.skip(n as int)) == Some((payload.len() as u64, m))
            &&& s.skip(n as int).skip(m as int) == payload + rest
        }),
{
    let len = payload.len() as u64;
    let s = encode_frame(t, payload) + rest;
    lemma_varint_roundtrip(t, encode_varint(len) + payload + rest);
    lemma_varint_roundtrip(len, payload + rest);
    assert(s =~= encode_varint(t) + (encode_varint(len) + payload + rest));
    let n = varint_size(t);
    assert(s.skip(n as int) =~= encode_varint(len) + (payload + rest));
    assert(s.skip(n as int).skip(varint_size(len) as int) =~= payload + rest);
}

/// Every type of the form `0x1f * N + 0x21` is reserved for greasing,
/// however large `N` is.
pub proof fn lemma_grease_every_index(n: nat)
    requires
        0x1f * n + 0x21 <= u64::MAX,
    ensures
        is_grease_type((0x1f * n + 0x21) as u64),
{
    let t = (0x1f * n + 0x21) as u64;
    assert(t - 0x21 == 0x1f * n);
    assert((0x1f * n) % 0x1f == 0) by (nonlinear_arith);
}

/// Only types of the form `0x1f * N + 0x21` are reserved for greasing.
pub proof fn lemma_grease_only_indices(t: u64)
    ensures
        is_grease_type(t) ==> t >= 0x21 && t == 0x1f * ((t - 0x21) / 0x1f) + 0x21,
{
}

impl Frame {
    /// `DATA` (0x00).
    pub fn data() -> (r: Frame)
        ensures
            r.0@ == 0x00,
    {
        Frame(VarInt::from_u32(0x00))
    }

    /// `HEADERS` (0x01).
    pub fn headers() -> (r: Frame)
        ensures
            r.0@ == 0x01,
    {
        Frame(VarInt::from_u32(0x01))
    }

    /// `CANCEL_PUSH` (0x03).
    pub fn cancel_push() -> (r: Frame)
        ensures
            r.0@ == 0x03,
    {
        Frame(VarInt::from_u32(0x03))
    }

    /// `SETTINGS` (0x04).
    pub fn settings() -> (r: Frame)
        ensures
            r.0@ == 0x04,
    {
        Frame(VarInt::from_u32(0x04))
    }

    /// `PUSH_PROMISE` (0x05).
    pub fn push_promise() -> (r: Frame)
        ensures
            r.0@ == 0x05,
    {
        Frame(VarInt::from_u32(0x05))
    }

    /// `GOAWAY` (0x07).
    pub fn goaway() -> (r: Frame)
        ensures
            r.0@ == 0x07,
    {
        Frame(VarInt::from_u32(0x07))
    }

    /// `MAX_PUSH_ID` (0x0d).
    pub fn max_push_id() -> (r: Frame)
        ensures
            r.0@ == 0x0d,
    {
        Frame(VarInt::from_u32(0x0d))
    }

    /// Whether this frame type is reserved for greasing; such frames must be
    /// ignored by the receiver.
    pub fn is_grease(&self) -> (r: bool)
        ensures
            r == is_grease_type(self.0@),
    {
        let val = self.0.into_inner();
        if val < 0x21 {
            return false;
        }
        (val - 0x21) % 0x1f == 0
    }

    /// The name of this frame type for logs: one of the known types, or
    /// `Frame::UNKNOWN`.
    pub fn debug_name(&self) -> (r: &'static str)
        ensures
            r == frame_debug_name(self.0@),
    {
        let t = self.0.into_inner();
        if t == 0x00 {
            "Frame::DATA"
        } else if t == 0x01 {
            "Frame::HEADERS"
        } else if t == 0x03 {
            "Frame::CANCEL_PUSH"
        } else if t == 0x04 {
            "Frame::SETTINGS"
        } else if t == 0x05 {
            "Frame::PUSH_PROMISE"
        } else if t == 0x07 {
            "Frame::GOAWAY"
        } else if t == 0x0d {
            "Frame::MAX_PUSH_ID"
        } else {
            "Frame::UNKNOWN"
        }
    }

    /// Appends a frame of this type carrying `fdata`: the type, the length of
    /// `fdata` and `fdata` itself. The length must fit in a varint.
    pub fn encode(&self, b: &mut BytesMut, fdata: Bytes)
        requires
            bytes_contents(fdata).len() < VARINT_BOUND,
            bytes_mut_contents(*old(b)).len() + 16 + bytes_contents(fdata).len() <= isize::MAX,
        ensures
            bytes_mut_contents(*final(b)) == bytes_mut_contents(*old(b)) + encode_frame(
                self.0@,
                bytes_contents(fdata),
            ),
    {
        let ghost before = bytes_mut_contents(*b);
        let len = bytes_len(&fdata);
        b.write_varint(self.0.into_inner());
        b.write_varint(len as u64);
        proof {
            lemma_varint_roundtrip(self.0@, Seq::empty());
            lemma_varint_roundtrip(len as u64, Seq::empty());
        }
        bytes_mut_put_bytes(b, fdata);
        assert(bytes_mut_contents(*b) =~= before + encode_frame(self.0@, bytes_contents(fdata)));
    }
}

} // verus!
