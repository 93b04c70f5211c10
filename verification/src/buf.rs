//! The output buffer of the encoders, `bytes::BytesMut`, as Verus sees it:
//! an opaque value whose contents are a sequence of bytes, and the few
//! operations on it that the encoders use. Nothing in this file is proved;
//! each contract restates what the `bytes` crate does.

use vstd::prelude::*;
use bytes::BufMut;

verus! {

/// `bytes::BytesMut`, of which Verus sees nothing but `contents`.
#[verifier::external_type_specification]
#[verifier::external_body]
pub struct ExBytesMut(bytes::BytesMut);

/// The bytes that a buffer holds, first written first.
pub uninterp spec fn contents(buf: bytes::BytesMut) -> Seq<u8>;

/// A 16-bit number in network byte order: the high byte, then the low byte.
pub open spec fn be16(n: u16) -> Seq<u8> {
    seq![(n / 256) as u8, (n % 256) as u8]
}

/// `BytesMut::with_capacity`: a buffer that holds no bytes yet. The crate
/// allocates `capacity` bytes, which must not exceed `isize::MAX`.
#[verifier::external_body]
pub(crate) fn with_capacity(capacity: usize) -> (buf: bytes::BytesMut)
    requires
        capacity <= isize::MAX,
    ensures
        contents(buf) == Seq::<u8>::empty(),
{
    bytes::BytesMut::with_capacity(capacity)
}

/// `BufMut::put_u8` on a `BytesMut`: appends one byte. The buffer grows as
/// needed, up to `isize::MAX` bytes.
#[verifier::external_body]
pub(crate) fn put_u8(buf: &mut bytes::BytesMut, n: u8)
    requires
        contents(*old(buf)).len() < isize::MAX,
    ensures
        contents(*final(buf)) == contents(*old(buf)).push(n),
{
    buf.put_u8(n)
}

/// `BufMut::put_u16` on a `BytesMut`: appends the number's two bytes in
/// network byte order.
#[verifier::external_body]
pub(crate) fn put_u16(buf: &mut bytes::BytesMut, n: u16)
    requires
        contents(*old(buf)).len() + 2 <= isize::MAX,
    ensures
        contents(*final(buf)) == contents(*old(buf)) + be16(n),
{
    buf.put_u16(n)
}

/// `BufMut::put_slice` on a `BytesMut`: appends the bytes of `src`.
#[verifier::external_body]
pub(crate) fn put_slice(buf: &mut bytes::BytesMut, src: &[u8])
    requires
        contents(*old(buf)).len() + src@.len() <= isize::MAX,
    ensures
        contents(*final(buf)) == contents(*old(buf)) + src@,
{
    buf.put_slice(src)
}

/// The buffer's bytes as a vector of their own: `BytesMut` dereferences to
/// the slice of the bytes it holds, which `to_vec` copies.
#[verifier::external_body]
pub(crate) fn to_vec(buf: &bytes::BytesMut) -> (v: Vec<u8>)
    ensures
        v@ == contents(*buf),
{
    buf.to_vec()
}

} // verus!
