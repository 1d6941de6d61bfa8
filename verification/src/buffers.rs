//! The byte buffers of the `bytes` crate, as this library sees them.
//!
//! `Bytes` (a read cursor over immutable bytes) and `BytesMut` (a growable
//! write buffer) are opaque to Verus. Their contents are named by
//! `bytes_contents` and `bytes_mut_contents`, and every method that the
//! library calls has a wrapper below whose contract says, over those names,
//! what the method does to the contents, as the crate's source shows it.
use bytes::{Buf, BufMut, Bytes, BytesMut};
use vstd::prelude::*;

verus! {

#[verifier::external_type_specification]
#[verifier::external_body]
pub struct ExBytes(Bytes);

#[verifier::external_type_specification]
#[verifier::external_body]
pub struct ExBytesMut(BytesMut);

/// The bytes that a `Bytes` still holds (its remaining bytes, front first).
pub uninterp spec fn bytes_contents(b: Bytes) -> Seq<u8>;

/// The bytes written so far into a `BytesMut`, front first.
pub uninterp spec fn bytes_mut_contents(b: BytesMut) -> Seq<u8>;

/// The two bytes of `w`, most significant first.
pub open spec fn be_u16(w: u16) -> Seq<u8> {
    seq![(w >> 8u16) as u8, w as u8]
}

/// The four bytes of `w`, most significant first.
pub open spec fn be_u32(w: u32) -> Seq<u8> {
    seq![(w >> 24u32) as u8, (w >> 16u32) as u8, (w >> 8u32) as u8, w as u8]
}

/// The eight bytes of `w`, most significant first.
pub open spec fn be_u64(w: u64) -> Seq<u8> {
    seq![
        (w >> 56u64) as u8,
        (w >> 48u64) as u8,
        (w >> 40u64) as u8,
        (w >> 32u64) as u8,
        (w >> 24u64) as u8,
        (w >> 16u64) as u8,
        (w >> 8u64) as u8,
        w as u8,
    ]
}

/// `BytesMut::new`: an empty buffer.
#[verifier::external_body]
pub fn bytes_mut_new() -> (r: BytesMut)
    ensures
        bytes_mut_contents(r) == Seq::<u8>::empty(),
{
    BytesMut::new()
}

/// `BytesMut::len`: the number of bytes written.
#[verifier::external_body]
pub fn bytes_mut_len(b: &BytesMut) -> (r: usize)
    ensures
        r == bytes_mut_contents(*b).len(),
{
    b.len()
}

/// `BufMut::put_u8` on a `BytesMut`: appends the byte. It can only panic when
/// the buffer would outgrow `isize::MAX` bytes, which `requires` rules out.
#[verifier::external_body]
pub fn bytes_mut_put_u8(b: &mut BytesMut, x: u8)
    requires
        bytes_mut_contents(*old(b)).len() + 1 <= isize::MAX,
    ensures
        bytes_mut_contents(*final(b)) == bytes_mut_contents(*old(b)).push(x),
{
    b.put_u8(x)
}

/// `BufMut::put_u16` on a `BytesMut`: appends the two bytes of `x`,
/// big-endian (the documented byte order of `put_u16`).
#[verifier::external_body]
pub fn bytes_mut_put_u16(b: &mut BytesMut, x: u16)
    requires
        bytes_mut_contents(*old(b)).len() + 2 <= isize::MAX,
    ensures
        bytes_mut_contents(*final(b)) == bytes_mut_contents(*old(b)) + be_u16(x),
{
    b.put_u16(x)
}

/// `BufMut::put_u32` on a `BytesMut`: appends the four bytes of `x`,
/// big-endian.
#[verifier::external_body]
pub fn bytes_mut_put_u32(b: &mut BytesMut, x: u32)
    requires
        bytes_mut_contents(*old(b)).len() + 4 <= isize::MAX,
    ensures
        bytes_mut_contents(*final(b)) == bytes_mut_contents(*old(b)) + be_u32(x),
{
    b.put_u32(x)
}

/// `BufMut::put_u64` on a `BytesMut`: appends the eight bytes of `x`,
/// big-endian.
#[verifier::external_body]
pub fn bytes_mut_put_u64(b: &mut BytesMut, x: u64)
    requires
        bytes_mut_contents(*old(b)).len() + 8 <= isize::MAX,
    ensures
        bytes_mut_contents(*final(b)) == bytes_mut_contents(*old(b)) + be_u64(x),
{
    b.put_u64(x)
}

/// `BufMut::put` of a `Bytes` into a `BytesMut`: appends all the bytes that
/// `src` holds.
#[verifier::external_body]
pub fn bytes_mut_put_bytes(b: &mut BytesMut, src: Bytes)
    requires
        bytes_mut_contents(*old(b)).len() + bytes_contents(src).len() <= isize::MAX,
    ensures
        bytes_mut_contents(*final(b)) == bytes_mut_contents(*old(b)) + bytes_contents(src),
{
    b.put(src)
}

/// `BytesMut::freeze`: the same bytes, as a `Bytes`.
#[verifier::external_body]
pub fn bytes_mut_freeze(b: BytesMut) -> (r: Bytes)
    ensures
        bytes_contents(r) == bytes_mut_contents(b),
{
    b.freeze()
}

/// `Bytes::len` (equal to `Buf::remaining` for `Bytes`).
#[verifier::external_body]
pub fn bytes_len(b: &Bytes) -> (r: usize)
    ensures
        r == bytes_contents(*b).len(),
{
    b.len()
}

/// `Buf::remaining` on a `Bytes`: the number of bytes not yet read.
#[verifier::external_body]
pub fn bytes_remaining(b: &Bytes) -> (r: usize)
    ensures
        r == bytes_contents(*b).len(),
{
    b.remaining()
}

/// `Buf::has_remaining` on a `Bytes`.
#[verifier::external_body]
pub fn bytes_has_remaining(b: &Bytes) -> (r: bool)
    ensures
        r == (bytes_contents(*b).len() > 0),
{
    b.has_remaining()
}

/// `Buf::get_u8` on a `Bytes`: takes the first byte. It panics on an empty
/// buffer, which `requires` rules out.
#[verifier::external_body]
pub fn bytes_get_u8(b: &mut Bytes) -> (r: u8)
    requires
        bytes_contents(*old(b)).len() >= 1,
    ensures
        r == bytes_contents(*old(b))[0],
        bytes_contents(*final(b)) == bytes_contents(*old(b)).drop_first(),
{
    b.get_u8()
}

/// `Buf::copy_to_slice` from a `Bytes` into `dst[start..end]`: the first
/// `end - start` bytes of `b` are moved there. It panics when `b` holds fewer
/// bytes, which `requires` rules out.
#[verifier::external_body]
pub fn bytes_copy_to_array(b: &mut Bytes, dst: &mut [u8; 8], start: usize, end: usize)
    requires
        start <= end <= 8,
        end - start <= bytes_contents(*old(b)).len(),
    ensures
        final(dst)@ == old(dst)@.subrange(0, start as int) + bytes_contents(*old(b)).take(
            end - start,
        ) + old(dst)@.subrange(end as int, 8),
        bytes_contents(*final(b)) == bytes_contents(*old(b)).skip(end - start),
{
    b.copy_to_slice(&mut dst[start..end])
}

/// `Bytes::split_to`: the first `at` bytes are returned, the rest stay.
/// It panics when `at` exceeds the length, which `requires` rules out.
#[verifier::external_body]
pub fn bytes_split_to(b: &mut Bytes, at: usize) -> (r: Bytes)
    requires
        at <= bytes_contents(*old(b)).len(),
    ensures
        bytes_contents(r) == bytes_contents(*old(b)).take(at as int),
        bytes_contents(*final(b)) == bytes_contents(*old(b)).skip(at as int),
{
    b.split_to(at)
}

} // verus!
