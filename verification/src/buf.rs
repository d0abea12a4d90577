//! The byte buffer of the `bytes` crate, as the framing code sees it: a
//! sequence of bytes that can be read from the front and appended to.

use vstd::prelude::*;
use bytes::BytesMut;

verus! {

/// The growable byte buffer `bytes::BytesMut`; what it holds is `buf_contents`.
#[verifier::external_type_specification]
#[verifier::external_body]
pub struct ExBytesMut(bytes::BytesMut);

/// The bytes that a buffer holds, front first.
pub uninterp spec fn buf_contents(b: BytesMut) -> Seq<u8>;

/// `BytesMut::len`: the number of bytes held.
#[verifier::external_body]
pub(crate) fn buf_len(b: &BytesMut) -> (r: usize)
    ensures
        r == buf_contents(*b).len(),
{
    b.len()
}

/// `Deref` of `BytesMut` to `[u8]`: the held bytes as a slice.
#[verifier::external_body]
pub(crate) fn buf_as_slice(b: &BytesMut) -> (r: &[u8])
    ensures
        r@ == buf_contents(*b),
{
    &b[..]
}

/// `Buf::advance` on `BytesMut`: drops the first `n` bytes. It panics when
/// `n` is past the end, which `requires` leaves out.
#[verifier::external_body]
pub(crate) fn buf_advance(b: &mut BytesMut, n: usize)
    requires
        n <= buf_contents(*old(b)).len(),
    ensures
        buf_contents(*final(b)) == buf_contents(*old(b)).skip(n as int),
{
    bytes::Buf::advance(b, n)
}

/// `BytesMut::split_to`: hands out the first `at` bytes and keeps the rest.
/// It panics when `at` is past the end, which `requires` leaves out.
#[verifier::external_body]
pub(crate) fn buf_split_to(b: &mut BytesMut, at: usize) -> (r: BytesMut)
    requires
        at <= buf_contents(*old(b)).len(),
    ensures
        buf_contents(r) == buf_contents(*old(b)).take(at as int),
        buf_contents(*final(b)) == buf_contents(*old(b)).skip(at as int),
{
    b.split_to(at)
}

/// `BufMut::put` of one `BytesMut` into another: appends all bytes of `src`.
/// A `BytesMut` holds at most `isize::MAX` bytes; past that it panics, which
/// `requires` leaves out.
#[verifier::external_body]
pub(crate) fn buf_put(dst: &mut BytesMut, src: BytesMut)
    requires
        buf_contents(*old(dst)).len() + buf_contents(src).len() <= isize::MAX,
    ensures
        buf_contents(*final(dst)) == buf_contents(*old(dst)) + buf_contents(src),
{
    bytes::BufMut::put(dst, src)
}

/// The number of bytes a buffer holds.
pub fn buffer_len(b: &BytesMut) -> (r: usize)
    ensures
        r == buf_contents(*b).len(),
{
    buf_len(b)
}

} // verus!
