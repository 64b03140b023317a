//! Byte buffers of the `bytes` crate and big-endian reads of the `byteorder`
//! crate, with the contracts that the protocol code relies on.
//!
//! Nothing in this file is proved: each contract restates what the named
//! function of the outside crate does.

use vstd::prelude::*;
use byteorder::{BigEndian, ByteOrder};
use bytes::{BufMut, Bytes, BytesMut};

verus! {

/// `bytes::BytesMut`, a growable byte buffer.
#[verifier::external_type_specification]
#[verifier::external_body]
pub struct ExBytesMut(bytes::BytesMut);

/// `bytes::Bytes`, an immutable byte buffer.
#[verifier::external_type_specification]
#[verifier::external_body]
pub struct ExBytes(bytes::Bytes);

/// The bytes that a `BytesMut` holds, first to last.
pub uninterp spec fn buf_contents(buf: BytesMut) -> Seq<u8>;

/// The bytes that a `Bytes` holds, first to last.
pub uninterp spec fn bytes_contents(bytes: Bytes) -> Seq<u8>;

/// The two bytes of a 16-bit number, high byte first.
pub open spec fn spec_u16_be(n: u16) -> Seq<u8> {
    seq![(n / 256) as u8, (n % 256) as u8]
}

/// The 16-bit number whose high byte is `hi` and whose low byte is `lo`.
pub open spec fn spec_u16_from_be(hi: u8, lo: u8) -> u16 {
    (hi * 256 + lo) as u16
}

/// `BytesMut::with_capacity`: a buffer that holds no bytes. The capacity is an
/// allocation hint; the call panics above `isize::MAX`, which `requires` leaves
/// out.
#[verifier::external_body]
pub(crate) fn buf_with_capacity(capacity: usize) -> (buf: BytesMut)
    requires
        capacity <= isize::MAX,
    ensures
        buf_contents(buf) == Seq::<u8>::empty(),
{
    BytesMut::with_capacity(capacity)
}

/// `BytesMut::reserve`: makes room for at least `additional` more bytes. The
/// bytes held stay as they are. The call panics where the new capacity would
/// overflow, which `requires` leaves out.
#[verifier::external_body]
pub(crate) fn buf_reserve(buf: &mut BytesMut, additional: usize)
    requires
        buf_contents(*old(buf)).len() + additional <= isize::MAX,
    ensures
        buf_contents(*final(buf)) == buf_contents(*old(buf)),
{
    buf.reserve(additional)
}

/// `BufMut::put_u8` on a `BytesMut`: appends one byte. The buffer grows as
/// needed and panics only where its length would pass `isize::MAX`.
#[verifier::external_body]
pub(crate) fn buf_put_u8(buf: &mut BytesMut, n: u8)
    requires
        buf_contents(*old(buf)).len() + 1 <= isize::MAX,
    ensures
        buf_contents(*final(buf)) == buf_contents(*old(buf)).push(n),
{
    buf.put_u8(n)
}

/// `BufMut::put_u16` on a `BytesMut`: appends a 16-bit number in big-endian
/// byte order, that is the high byte, then the low byte.
#[verifier::external_body]
pub(crate) fn buf_put_u16(buf: &mut BytesMut, n: u16)
    requires
        buf_contents(*old(buf)).len() + 2 <= isize::MAX,
    ensures
        buf_contents(*final(buf)) == buf_contents(*old(buf)) + spec_u16_be(n),
{
    buf.put_u16(n)
}

/// `BufMut::put_slice` on a `BytesMut`: appends the bytes of the slice.
#[verifier::external_body]
pub(crate) fn buf_put_slice(buf: &mut BytesMut, src: &[u8])
    requires
        buf_contents(*old(buf)).len() + src@.len() <= isize::MAX,
    ensures
        buf_contents(*final(buf)) == buf_contents(*old(buf)) + src@,
{
    buf.put_slice(src)
}

/// `BytesMut::freeze`: the same bytes, now immutable.
#[verifier::external_body]
pub(crate) fn buf_freeze(buf: BytesMut) -> (bytes: Bytes)
    ensures
        bytes_contents(bytes) == buf_contents(buf),
{
    buf.freeze()
}

/// `BytesMut::split_to`: takes the first `at` bytes out of the buffer and
/// returns them; the buffer keeps the rest. The call panics where `at` is past
/// the length, which `requires` leaves out.
#[verifier::external_body]
pub(crate) fn buf_split_to(buf: &mut BytesMut, at: usize) -> (head: BytesMut)
    requires
        at <= buf_contents(*old(buf)).len(),
    ensures
        buf_contents(head) == buf_contents(*old(buf)).take(at as int),
        buf_contents(*final(buf)) == buf_contents(*old(buf)).skip(at as int),
{
    buf.split_to(at)
}

/// The `Deref` of a `BytesMut`: its bytes as a slice.
#[verifier::external_body]
pub(crate) fn buf_as_slice(buf: &BytesMut) -> (slice: &[u8])
    ensures
        slice@ == buf_contents(*buf),
{
    &buf[..]
}

/// The `Deref` of a `Bytes`: its bytes as a slice.
#[verifier::external_body]
pub(crate) fn bytes_as_slice(bytes: &Bytes) -> (slice: &[u8])
    ensures
        slice@ == bytes_contents(*bytes),
{
    &bytes[..]
}

/// `BigEndian::read_u16` of `byteorder`: the number written in the first two
/// bytes, high byte first. The call panics on fewer than two bytes, which
/// `requires` leaves out.
#[verifier::external_body]
pub(crate) fn read_u16_be(buf: &[u8]) -> (n: u16)
    requires
        buf@.len() >= 2,
    ensures
        n == spec_u16_from_be(buf@[0], buf@[1]),
{
    BigEndian::read_u16(buf)
}

} // verus!
