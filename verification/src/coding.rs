//! QUIC variable-length integers (RFC 9000, section 16).
//!
//! A varint stores an integer below `2^62` in 1, 2, 4 or 8 bytes: the two
//! high bits of the first byte give the length, the remaining bits hold the
//! value, big-endian. Smaller values take fewer bytes. They are the building
//! blocks of every QUIC based protocol, and of HTTP/3 frames in particular.
use crate::buffers::{
    be_u16, be_u32, be_u64, bytes_contents, bytes_copy_to_array, bytes_get_u8, bytes_has_remaining,
    bytes_mut_contents,
    bytes_mut_put_u16, bytes_mut_put_u32, bytes_mut_put_u64, bytes_mut_put_u8, bytes_remaining,
};
use crate::quic::quic_varint_from_u64;
use bytes::{Bytes, BytesMut};
use vstd::prelude::*;

verus! {

/// One past the largest value a varint can hold (`2^62`).
pub const VARINT_BOUND: u64 = 0x4000_0000_0000_0000;

/// An integer below `2^62`, suitable for encoding as a QUIC varint.
#[derive(Clone, Copy, PartialEq, Eq, Hash, Debug)]
pub struct VarInt {
    pub(crate) inner: u64,
}

impl View for VarInt {
    type V = u64;

    closed spec fn view(&self) -> u64 {
        self.inner
    }
}

/// Errors met while decoding a varint.
#[derive(Debug, PartialEq, Eq)]
pub enum CodingError {
    /// The stream ended, or failed, before the varint was complete.
    ReadExactError(quinn::ReadExactError),
    /// The tag bits name no known length (cannot happen with two tag bits).
    VarIntMalformed(u8),
    /// The decoded value does not fit below `2^62`.
    VarIntBoundsExceeded(quinn::VarIntBoundsExceeded),
    /// The buffer holds fewer bytes than the tag announces.
    UnexpectedEnd,
}

impl VarInt {
    #[verifier::type_invariant]
    pub open spec fn inv(self) -> bool {
        self@ < VARINT_BOUND
    }

    /// Builds a `VarInt` from any `u32`, which always fits.
    pub fn from_u32(x: u32) -> (r: VarInt)
        ensures
            r@ == x,
    {
        VarInt { inner: x as u64 }
    }

    /// Builds a `VarInt`, succeeding exactly when `x < 2^62`.
    pub fn from_u64(x: u64) -> (r: Result<VarInt, quinn::VarIntBoundsExceeded>)
        ensures
            r is Ok <==> x < VARINT_BOUND,
            r matches Ok(v) ==> v@ == x,
    {
        match quic_varint_from_u64(x) {
            Ok(v) => Ok(VarInt { inner: v }),
            Err(e) => Err(e),
        }
    }

    /// Builds a `VarInt` from a value known to fit.
    pub(crate) fn from_bounded(x: u64) -> (r: VarInt)
        requires
            x < VARINT_BOUND,
        ensures
            r@ == x,
    {
        VarInt { inner: x }
    }

    /// The integer held.
    pub fn into_inner(self) -> (r: u64)
        ensures
            r == self@,
            r < VARINT_BOUND,
    {
        proof {
            use_type_invariant(&self);
        }
        self.inner
    }
}

/// The number of bytes the encoding of `x` takes.
pub open spec fn varint_size(x: u64) -> nat {
    if x < 0x40 {
        1
    } else if x < 0x4000 {
        2
    } else if x < 0x4000_0000 {
        4
    } else {
        8
    }
}

/// The encoding of `x < 2^62`: the value with its length tag in the two high
/// bits, big-endian, in the fewest bytes that hold it.
pub open spec fn encode_varint(x: u64) -> Seq<u8> {
    if x < 0x40 {
        seq![x as u8]
    } else if x < 0x4000 {
        be_u16(0x4000u16 | (x as u16))
    } else if x < 0x4000_0000 {
        be_u32(0x8000_0000u32 | (x as u32))
    } else {
        be_u64(0xc000_0000_0000_0000u64 | x)
    }
}

/// The length (1, 2, 4 or 8) that the tag bits of a first byte announce.
pub open spec fn varint_len_of_first(first: u8) -> nat {
    let tag = first >> 6u8;
    if tag == 0 {
        1
    } else if tag == 1 {
        2
    } else if tag == 2 {
        4
    } else {
        8
    }
}

/// The integer that bytes spell, most significant first.
pub open spec fn be_value(s: Seq<u8>) -> nat
    decreases s.len(),
{
    if s.len() == 0 {
        0
    } else {
        be_value(s.drop_last()) * 256 + s.last() as nat
    }
}

/// The value that the first `varint_len_of_first(s[0])` bytes of `s` encode:
/// those bytes, big-endian, with the two tag bits of the first one cleared.
pub open spec fn varint_value(s: Seq<u8>) -> u64 {
    let n = varint_len_of_first(s[0]);
    be_value(s.take(n as int).update(0, s[0] & 0x3fu8)) as u64
}

/// The same value, as shifts and bit-ors of the bytes.
spec fn varint_value_bits(s: Seq<u8>) -> u64 {
    let n = varint_len_of_first(s[0]);
    let b0 = (s[0] & 0x3fu8) as u64;
    if n == 1 {
        b0
    } else if n == 2 {
        (b0 << 8u64) | (s[1] as u64)
    } else if n == 4 {
        (b0 << 24u64) | ((s[1] as u64) << 16u64) | ((s[2] as u64) << 8u64) | (s[3] as u64)
    } else {
        (b0 << 56u64) | ((s[1] as u64) << 48u64) | ((s[2] as u64) << 40u64) | ((s[3] as u64)
            << 32u64) | ((s[4] as u64) << 24u64) | ((s[5] as u64) << 16u64) | ((s[6] as u64)
            << 8u64) | (s[7] as u64)
    }
}

proof fn lemma_be_value_push(s: Seq<u8>, b: u8)
    ensures
        be_value(s.push(b)) == be_value(s) * 256 + b as nat,
{
    assert(s.push(b).drop_last() =~= s);
}

proof fn lemma_varint_value_bits(s: Seq<u8>)
    requires
        s.len() >= 1,
        s.len() >= varint_len_of_first(s[0]),
    ensures
        varint_value(s) == varint_value_bits(s),
{
    let n = varint_len_of_first(s[0]);
    let f = s[0];
    let c0 = f & 0x3fu8;
    let t = s.take(n as int).update(0, c0);
    assert(c0 < 64) by (bit_vector)
        requires
            c0 == f & 0x3fu8,
    ;
    let e: Seq<u8> = Seq::empty();
    lemma_be_value_push(e, c0);
    assert(e.push(c0).drop_last() =~= e);
    let t1 = e.push(c0);
    if n == 1 {
        assert(t =~= t1);
    } else {
        let c1 = s[1];
        let t2 = t1.push(c1);
        lemma_be_value_push(t1, c1);
        if n == 2 {
            assert(t =~= t2);
            assert(((c0 as u64) << 8u64) | (c1 as u64) == (c0 as u64) * 256 + (c1 as u64))
                by (bit_vector)
                requires
                    c0 < 64,
            ;
        } else {
            let c2 = s[2];
            let c3 = s[3];
            let t3 = t2.push(c2);
            let t4 = t3.push(c3);
            lemma_be_value_push(t2, c2);
            lemma_be_value_push(t3, c3);
            if n == 4 {
                assert(t =~= t4);
                assert(((c0 as u64) << 24u64) | ((c1 as u64) << 16u64) | ((c2 as u64) << 8u64) | (
                c3 as u64) == (((c0 as u64) * 256 + (c1 as u64)) * 256 + (c2 as u64)) * 256 + (
                c3 as u64)) by (bit_vector)
                    requires
                        c0 < 64,
                ;
            } else {
                let c4 = s[4];
                let c5 = s[5];
                let c6 = s[6];
                let c7 = s[7];
                let t5 = t4.push(c4);
                let t6 = t5.push(c5);
                let t7 = t6.push(c6);
                let t8 = t7.push(c7);
                lemma_be_value_push(t4, c4);
                lemma_be_value_push(t5, c5);
                lemma_be_value_push(t6, c6);
                lemma_be_value_push(t7, c7);
                assert(t =~= t8);
                assert(((c0 as u64) << 56u64) | ((c1 as u64) << 48u64) | ((c2 as u64) << 40u64) | (
                (c3 as u64) << 32u64) | ((c4 as u64) << 24u64) | ((c5 as u64) << 16u64) | ((
                c6 as u64) << 8u64) | (c7 as u64) == (((((((c0 as u64) * 256 + (c1 as u64)) * 256
                    + (c2 as u64)) * 256 + (c3 as u64)) * 256 + (c4 as u64)) * 256 + (c5 as u64))
                    * 256 + (c6 as u64)) * 256 + (c7 as u64)) by (bit_vector)
                    requires
                        c0 < 64,
                ;
            }
        }
    }
}

/// The varint at the front of `s`, with the number of bytes it takes, or
/// `None` when `s` is empty or shorter than its first byte announces.
pub open spec fn decode_varint(s: Seq<u8>) -> Option<(u64, nat)> {
    if s.len() == 0 || s.len() < varint_len_of_first(s[0]) {
        None
    } else {
        Some((varint_value(s), varint_len_of_first(s[0])))
    }
}

proof fn lemma_value_bound(s: Seq<u8>)
    requires
        s.len() >= varint_len_of_first(s[0]),
    ensures
        varint_value(s) < VARINT_BOUND,
{
    lemma_varint_value_bits(s);
    let b0 = s[0];
    let b1: u8 = if s.len() > 1 { s[1] } else { 0 };
    let b2: u8 = if s.len() > 2 { s[2] } else { 0 };
    let b3: u8 = if s.len() > 3 { s[3] } else { 0 };
    let b4: u8 = if s.len() > 4 { s[4] } else { 0 };
    let b5: u8 = if s.len() > 5 { s[5] } else { 0 };
    let b6: u8 = if s.len() > 6 { s[6] } else { 0 };
    let b7: u8 = if s.len() > 7 { s[7] } else { 0 };
    assert(((b0 & 0x3fu8) as u64) < 0x4000_0000_0000_0000u64) by (bit_vector);
    assert((((b0 & 0x3fu8) as u64) << 8u64) | (b1 as u64) < 0x4000_0000_0000_0000u64)
        by (bit_vector);
    assert((((b0 & 0x3fu8) as u64) << 24u64) | ((b1 as u64) << 16u64) | ((b2 as u64) << 8u64)
        | (b3 as u64) < 0x4000_0000_0000_0000u64) by (bit_vector);
    assert((((b0 & 0x3fu8) as u64) << 56u64) | ((b1 as u64) << 48u64) | ((b2 as u64) << 40u64)
        | ((b3 as u64) << 32u64) | ((b4 as u64) << 24u64) | ((b5 as u64) << 16u64) | ((b6 as u64)
        << 8u64) | (b7 as u64) < 0x4000_0000_0000_0000u64) by (bit_vector);
}

/// A varint reads back as the value written: decoding the encoding of any
/// `x < 2^62`, whatever follows it, gives `x` and consumes exactly the
/// encoding, which takes 1, 2, 4 or 8 bytes by the size of `x`.
pub proof fn lemma_varint_roundtrip(x: u64, rest: Seq<u8>)
    requires
        x < VARINT_BOUND,
    ensures
        encode_varint(x).len() == varint_size(x),
        decode_varint(encode_varint(x) + rest) == Some((x, varint_size(x))),
{
    let s = encode_varint(x) + rest;
    if x < 0x40 {
        let b0 = x as u8;
        assert(b0 >> 6u8 == 0u8 && ((b0 & 0x3fu8) as u64) == x) by (bit_vector)
            requires
                b0 == x as u8,
                x < 0x40u64,
        ;
        assert(s[0] == b0);
    } else if x < 0x4000 {
        let w = 0x4000u16 | (x as u16);
        let b0 = (w >> 8u16) as u8;
        let b1 = w as u8;
        assert(b0 >> 6u8 == 1u8 && ((((b0 & 0x3fu8) as u64) << 8u64) | (b1 as u64)) == x)
            by (bit_vector)
            requires
                w == 0x4000u16 | (x as u16),
                b0 == (w >> 8u16) as u8,
                b1 == w as u8,
                0x40u64 <= x < 0x4000u64,
        ;
        assert(s[0] == b0 && s[1] == b1);
    } else if x < 0x4000_0000 {
        let w = 0x8000_0000u32 | (x as u32);
        let b0 = (w >> 24u32) as u8;
        let b1 = (w >> 16u32) as u8;
        let b2 = (w >> 8u32) as u8;
        let b3 = w as u8;
        assert(b0 >> 6u8 == 2u8 && ((((b0 & 0x3fu8) as u64) << 24u64) | ((b1 as u64) << 16u64)
            | ((b2 as u64) << 8u64) | (b3 as u64)) == x) by (bit_vector)
            requires
                w == 0x8000_0000u32 | (x as u32),
                b0 == (w >> 24u32) as u8,
                b1 == (w >> 16u32) as u8,
                b2 == (w >> 8u32) as u8,
                b3 == w as u8,
                0x4000u64 <= x < 0x4000_0000u64,
        ;
        assert(s[0] == b0 && s[1] == b1 && s[2] == b2 && s[3] == b3);
    } else {
        let w = 0xc000_0000_0000_0000u64 | x;
        let b0 = (w >> 56u64) as u8;
        let b1 = (w >> 48u64) as u8;
        let b2 = (w >> 40u64) as u8;
        let b3 = (w >> 32u64) as u8;
        let b4 = (w >> 24u64) as u8;
        let b5 = (w >> 16u64) as u8;
        let b6 = (w >> 8u64) as u8;
        let b7 = w as u8;
        assert(b0 >> 6u8 == 3u8 && ((((b0 & 0x3fu8) as u64) << 56u64) | ((b1 as u64) << 48u64)
            | ((b2 as u64) << 40u64) | ((b3 as u64) << 32u64) | ((b4 as u64) << 24u64) | ((
        b5 as u64) << 16u64) | ((b6 as u64) << 8u64) | (b7 as u64)) == x) by (bit_vector)
            requires
                w == 0xc000_0000_0000_0000u64 | x,
                b0 == (w >> 56u64) as u8,
                b1 == (w >> 48u64) as u8,
                b2 == (w >> 40u64) as u8,
                b3 == (w >> 32u64) as u8,
                b4 == (w >> 24u64) as u8,
                b5 == (w >> 16u64) as u8,
                b6 == (w >> 8u64) as u8,
                b7 == w as u8,
                0x4000_0000u64 <= x < 0x4000_0000_0000_0000u64,
        ;
        assert(s[0] == b0 && s[1] == b1 && s[2] == b2 && s[3] == b3 && s[4] == b4 && s[5] == b5
            && s[6] == b6 && s[7] == b7);
    }
    lemma_varint_value_bits(s);
}

/// Smaller values take no more bytes than larger ones.
pub proof fn lemma_varint_size_monotone(x: u64, y: u64)
    requires
        x <= y,
    ensures
        varint_size(x) <= varint_size(y),
{
}

/// Reading a varint off a stream gives what reading it from a buffer of the
/// same bytes gives. The stream reader takes the first byte, reads as many
/// more as `varint_encoded_len` of it says into an 8-byte array, and decodes
/// the array with `varint_from_array`; whatever the rest of the array holds,
/// the value is that of `decode_varint` on the stream's bytes, and exactly
/// `decode_varint`'s count of bytes is taken.
pub proof fn lemma_stream_read_matches_buffer_read(buf: Seq<u8>, s: Seq<u8>)
    requires
        buf.len() == 8,
        s.len() >= 1,
        s.len() >= varint_len_of_first(s[0]),
        buf.take(varint_len_of_first(s[0]) as int) == s.take(varint_len_of_first(s[0]) as int),
    ensures
        varint_len_of_first(buf[0]) == varint_len_of_first(s[0]),
        decode_varint(s) == Some((varint_value(buf), varint_len_of_first(s[0]))),
{
    let n = varint_len_of_first(s[0]);
    assert forall|i: int| 0 <= i < n implies buf[i] == s[i] by {
        assert(buf.take(n as int)[i] == s.take(n as int)[i]);
    }
    assert(buf[0] == s[0]);
    assert(varint_value(buf) == varint_value(s));
}

/// The number of bytes that a varint whose first byte is `first` takes, as
/// its two tag bits announce.
pub fn varint_encoded_len(first: u8) -> (r: usize)
    ensures
        r == varint_len_of_first(first),
        r == 1 || r == 2 || r == 4 || r == 8,
{
    let tag = first >> 6;
    assert(first >> 6u8 < 4) by (bit_vector);
    if tag == 0 {
        1
    } else if tag == 1 {
        2
    } else if tag == 2 {
        4
    } else {
        8
    }
}

/// Decodes the varint held at the front of `buf`: its first byte (tag bits
/// included) and the bytes that follow, as many as the tag announces. The
/// result is always `Ok`, as every such value is below `2^62`.
pub fn varint_from_array(buf: &[u8; 8]) -> (r: Result<VarInt, CodingError>)
    ensures
        r matches Ok(v) && v@ == varint_value(buf@),
{
    let first = buf[0];
    let tag = first >> 6;
    let b0 = (first & 0b0011_1111) as u64;
    assert(first >> 6u8 < 4) by (bit_vector);
    let val: u64 = match tag {
        0b00 => b0,
        0b01 => (b0 << 8) | (buf[1] as u64),
        0b10 => (b0 << 24) | ((buf[1] as u64) << 16) | ((buf[2] as u64) << 8) | (buf[3] as u64),
        0b11 => (b0 << 56) | ((buf[1] as u64) << 48) | ((buf[2] as u64) << 40) | ((buf[3] as u64)
            << 32) | ((buf[4] as u64) << 24) | ((buf[5] as u64) << 16) | ((buf[6] as u64) << 8)
            | (buf[7] as u64),
        _ => {
            return Err(CodingError::VarIntMalformed(tag));
        },
    };
    proof {
        lemma_value_bound(buf@);
        lemma_varint_value_bits(buf@);
    }
    match VarInt::from_u64(val) {
        Ok(v) => Ok(v),
        Err(e) => Err(CodingError::VarIntBoundsExceeded(e)),
    }
}

/// Reading varints from a buffer of received bytes.
pub trait VarIntExt {
    /// The bytes not yet read.
    spec fn unread(&self) -> Seq<u8>;

    /// Reads the varint at the front. On success the varint's bytes are
    /// consumed. When fewer bytes remain than the varint needs (none at all,
    /// or fewer than its tag announces), the result is `UnexpectedEnd`, and
    /// only the first byte, if there is one, is consumed.
    fn read_varint(&mut self) -> (r: Result<VarInt, CodingError>)
        ensures
            match decode_varint(old(self).unread()) {
                Some((v, n)) => r matches Ok(x) && x@ == v && final(self).unread() == old(
                    self,
                ).unread().skip(n as int),
                None => r == Err::<VarInt, CodingError>(CodingError::UnexpectedEnd) && (old(
                    self,
                ).unread().len() == 0 ==> final(self).unread() == old(self).unread()) && (old(
                    self,
                ).unread().len() > 0 ==> final(self).unread() == old(self).unread().skip(1)),
            },
    ;
}

/// Writing varints into an output buffer.
pub trait VarIntMutExt {
    /// The bytes written so far.
    spec fn written(&self) -> Seq<u8>;

    /// Appends the encoding of `val`, which must be below `2^62`.
    fn write_varint(&mut self, val: u64)
        requires
            val < VARINT_BOUND,
            old(self).written().len() + 8 <= isize::MAX,
        ensures
            final(self).written() == old(self).written() + encode_varint(val),
    ;
}

impl VarIntExt for Bytes {
    open spec fn unread(&self) -> Seq<u8> {
        bytes_contents(*self)
    }

    fn read_varint(&mut self) -> (r: Result<VarInt, CodingError>) {
        let ghost s = bytes_contents(*self);
        if !bytes_has_remaining(self) {
            return Err(CodingError::UnexpectedEnd);
        }
        let mut buf: [u8; 8] = [0; 8];
        buf[0] = bytes_get_u8(self);
        let tag = buf[0] >> 6;
        proof {
            let f = buf[0];
            assert(f >> 6u8 < 4) by (bit_vector);
        }
        match tag {
            0b00 => {},
            0b01 => {
                if bytes_remaining(self) < 1 {
                    return Err(CodingError::UnexpectedEnd);
                }
                bytes_copy_to_array(self, &mut buf, 1, 2);
            },
            0b10 => {
                if bytes_remaining(self) < 3 {
                    return Err(CodingError::UnexpectedEnd);
                }
                bytes_copy_to_array(self, &mut buf, 1, 4);
            },
            0b11 => {
                if bytes_remaining(self) < 7 {
                    return Err(CodingError::UnexpectedEnd);
                }
                bytes_copy_to_array(self, &mut buf, 1, 8);
            },
            _ => {
                return Err(CodingError::VarIntMalformed(tag));
            },
        }
        proof {
            let n = varint_len_of_first(s[0]);
            assert(buf@[0] == s[0]);
            assert forall|i: int| 0 <= i < n implies buf@[i] == s[i] by {
                if i > 0 {
                    assert(s.drop_first()[i - 1] == s[i]);
                }
            }
            assert(bytes_contents(*self) =~= s.skip(n as int));
            assert(buf@.take(n as int) =~= s.take(n as int));
            assert(varint_value(buf@) == varint_value(s));
        }
        varint_from_array(&buf)
    }
}

impl VarIntMutExt for BytesMut {
    open spec fn written(&self) -> Seq<u8> {
        bytes_mut_contents(*self)
    }

    fn write_varint(&mut self, x: u64) {
        let ghost before = bytes_mut_contents(*self);
        if x < 0x40 {
            bytes_mut_put_u8(self, x as u8);
            assert(bytes_mut_contents(*self) =~= before + seq![x as u8]);
        } else if x < 0x4000 {
            assert((0b01u16 << 14u16) == 0x4000u16) by (bit_vector);
            bytes_mut_put_u16(self, (0b01 << 14) | x as u16);
        } else if x < 0x4000_0000 {
            assert((0b10u32 << 30u32) == 0x8000_0000u32) by (bit_vector);
            bytes_mut_put_u32(self, (0b10 << 30) | x as u32);
        } else {
            assert((0b11u64 << 62u64) == 0xc000_0000_0000_0000u64) by (bit_vector);
            bytes_mut_put_u64(self, (0b11 << 62) | x);
        }
    }
}

} // verus!
