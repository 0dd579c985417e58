//! The byte buffers of the `bytes` crate as the parsers and writers see them:
//! a read cursor (`Bytes`) and a growable output buffer (`BytesMut`), each
//! modelled by the sequence of bytes it holds.

use bytes::{Buf, BufMut, Bytes, BytesMut};
use vstd::prelude::*;

verus! {

#[verifier::external_type_specification]
#[verifier::external_body]
pub struct ExBytes(Bytes);

#[verifier::external_type_specification]
#[verifier::external_body]
pub struct ExBytesMut(BytesMut);

/// The bytes that a `Bytes` cursor has not yet handed out.
pub uninterp spec fn bytes_view(b: Bytes) -> Seq<u8>;

/// The bytes written so far into a `BytesMut`.
pub uninterp spec fn bytes_mut_view(b: BytesMut) -> Seq<u8>;

/// Little-endian value of two bytes.
pub open spec fn le16(b0: u8, b1: u8) -> u16 {
    ((b0 as u16) | ((b1 as u16) << 8u16)) as u16
}

/// Little-endian value of four bytes.
pub open spec fn le32(b0: u8, b1: u8, b2: u8, b3: u8) -> u32 {
    ((b0 as u32) | ((b1 as u32) << 8u32) | ((b2 as u32) << 16u32) | ((b3 as u32) << 24u32)) as u32
}

/// The little-endian `u16` that starts at index `i` of `s`.
pub open spec fn seq_le16(s: Seq<u8>, i: int) -> u16 {
    le16(s[i], s[i + 1])
}

/// The little-endian `u32` that starts at index `i` of `s`.
pub open spec fn seq_le32(s: Seq<u8>, i: int) -> u32 {
    le32(s[i], s[i + 1], s[i + 2], s[i + 3])
}

/// The bytes of `v` in little-endian order.
pub open spec fn u16_le_bytes(v: u16) -> Seq<u8> {
    seq![(v & 0xff) as u8, ((v >> 8u16) & 0xff) as u8]
}

/// The bytes of `v` in little-endian order.
pub open spec fn u32_le_bytes(v: u32) -> Seq<u8> {
    seq![
        (v & 0xff) as u8,
        ((v >> 8u32) & 0xff) as u8,
        ((v >> 16u32) & 0xff) as u8,
        ((v >> 24u32) & 0xff) as u8,
    ]
}

/// Reading back the little-endian bytes of a `u16` gives the value.
pub proof fn lemma_le16_roundtrip(v: u16)
    ensures
        le16((v & 0xff) as u8, ((v >> 8u16) & 0xff) as u8) == v,
{
    assert(((((v & 0xff) as u8) as u16) | (((((v >> 8u16) & 0xff) as u8) as u16) << 8u16)) == v)
        by (bit_vector);
}

/// Reading back the little-endian bytes of a `u32` gives the value.
pub proof fn lemma_le32_roundtrip(v: u32)
    ensures
        le32(
            (v & 0xff) as u8,
            ((v >> 8u32) & 0xff) as u8,
            ((v >> 16u32) & 0xff) as u8,
            ((v >> 24u32) & 0xff) as u8,
        ) == v,
{
    assert(((((v & 0xff) as u8) as u32) | (((((v >> 8u32) & 0xff) as u8) as u32) << 8u32) | (
    ((((v >> 16u32) & 0xff) as u8) as u32) << 16u32) | (((((v >> 24u32) & 0xff) as u8) as u32)
        << 24u32)) == v) by (bit_vector);
}

/// `Bytes::len` (through `Deref` to `[u8]`): the number of bytes not yet read.
#[verifier::external_body]
pub(crate) fn buf_len(b: &Bytes) -> (n: usize)
    ensures
        n == bytes_view(*b).len(),
{
    b.len()
}

/// `Buf::get_u8` on `Bytes`: hands out the first byte and advances by one.
/// It panics on an empty buffer, which `requires` rules out.
#[verifier::external_body]
pub(crate) fn buf_get_u8(b: &mut Bytes) -> (v: u8)
    requires
        bytes_view(*old(b)).len() >= 1,
    ensures
        v == bytes_view(*old(b))[0],
        bytes_view(*final(b)) == bytes_view(*old(b)).skip(1),
{
    b.get_u8()
}

/// `Buf::get_u16_le` on `Bytes`: the first two bytes, little-endian; advances by two.
#[verifier::external_body]
pub(crate) fn buf_get_u16_le(b: &mut Bytes) -> (v: u16)
    requires
        bytes_view(*old(b)).len() >= 2,
    ensures
        v == seq_le16(bytes_view(*old(b)), 0),
        bytes_view(*final(b)) == bytes_view(*old(b)).skip(2),
{
    b.get_u16_le()
}

/// `Buf::get_u32_le` on `Bytes`: the first four bytes, little-endian; advances by four.
#[verifier::external_body]
pub(crate) fn buf_get_u32_le(b: &mut Bytes) -> (v: u32)
    requires
        bytes_view(*old(b)).len() >= 4,
    ensures
        v == seq_le32(bytes_view(*old(b)), 0),
        bytes_view(*final(b)) == bytes_view(*old(b)).skip(4),
{
    b.get_u32_le()
}

/// `Bytes::slice(start..end)`: a new cursor over those bytes; `b` is not advanced.
#[verifier::external_body]
pub(crate) fn buf_slice(b: &Bytes, start: usize, end: usize) -> (r: Bytes)
    requires
        start <= end <= bytes_view(*b).len(),
    ensures
        bytes_view(r) == bytes_view(*b).subrange(start as int, end as int),
{
    b.slice(start..end)
}

/// `<[u8]>::to_vec` through `Bytes`' `Deref`: a copy of the bytes not yet read.
#[verifier::external_body]
pub(crate) fn buf_to_vec(b: &Bytes) -> (v: Vec<u8>)
    ensures
        v@ == bytes_view(*b),
{
    b.to_vec()
}

/// `Bytes::from(Vec<u8>)`: a cursor over the vector's bytes.
#[verifier::external_body]
pub(crate) fn buf_from_vec(v: Vec<u8>) -> (b: Bytes)
    ensures
        bytes_view(b) == v@,
{
    Bytes::from(v)
}

/// `BytesMut::len`: the number of bytes written.
#[verifier::external_body]
pub(crate) fn out_len(b: &BytesMut) -> (n: usize)
    ensures
        n == bytes_mut_view(*b).len(),
{
    b.len()
}

/// `BufMut::put_slice` on `BytesMut`: appends the slice.
#[verifier::external_body]
pub(crate) fn out_put_slice(b: &mut BytesMut, src: &[u8])
    ensures
        bytes_mut_view(*final(b)) == bytes_mut_view(*old(b)) + src@,
{
    b.put_slice(src)
}

/// `BufMut::put_u8` on `BytesMut`: appends one byte.
#[verifier::external_body]
pub(crate) fn out_put_u8(b: &mut BytesMut, v: u8)
    ensures
        bytes_mut_view(*final(b)) == bytes_mut_view(*old(b)).push(v),
{
    b.put_u8(v)
}

/// Writing through `BytesMut`'s `DerefMut`: `b[at..at + src.len()].copy_from_slice(src)`.
/// It panics when the range leaves the buffer, which `requires` rules out.
#[verifier::external_body]
pub(crate) fn out_overwrite(b: &mut BytesMut, at: usize, src: &[u8])
    requires
        at + src@.len() <= bytes_mut_view(*old(b)).len(),
    ensures
        bytes_mut_view(*final(b)) == bytes_mut_view(*old(b)).subrange(0, at as int) + src@
            + bytes_mut_view(*old(b)).subrange(
            at + src@.len(),
            bytes_mut_view(*old(b)).len() as int,
        ),
{
    b[at..at + src.len()].copy_from_slice(src)
}

} // verus!
