//! Byte buffers of the `bytes` crate, as the protocol logic uses them.
//!
//! [`BytesMut`] and [`Bytes`] are opaque here: what they hold is named by
//! [`buffer_bytes`] and [`shared_bytes`], and every operation that the logic
//! calls states what it does to those contents.

use bytes::{Buf, BufMut, Bytes, BytesMut};
use vstd::prelude::*;

verus! {

/// A growable byte buffer, `bytes::BytesMut`.
#[verifier::external_type_specification]
#[verifier::external_body]
pub struct ExBytesMut(BytesMut);

/// A shared, immutable run of bytes, `bytes::Bytes`.
#[verifier::external_type_specification]
#[verifier::external_body]
pub struct ExBytes(Bytes);

/// The bytes that a [`BytesMut`] holds, in order.
pub uninterp spec fn buffer_bytes(buf: BytesMut) -> Seq<u8>;

/// The bytes that a [`Bytes`] holds, in order.
pub uninterp spec fn shared_bytes(buf: Bytes) -> Seq<u8>;

/// `BytesMut::new`: an empty buffer.
pub assume_specification [BytesMut::new]() -> (buf: BytesMut)
    ensures
        buffer_bytes(buf) == Seq::<u8>::empty(),
;

/// `BytesMut::with_capacity`: an empty buffer with room set aside. It panics
/// for a capacity beyond what can be allocated.
pub assume_specification [BytesMut::with_capacity](capacity: usize) -> (buf: BytesMut)
    requires
        capacity <= isize::MAX,
    ensures
        buffer_bytes(buf) == Seq::<u8>::empty(),
;

/// `BytesMut::zeroed`: a buffer of `len` zero bytes. It panics for a length
/// beyond what can be allocated.
pub assume_specification [BytesMut::zeroed](len: usize) -> (buf: BytesMut)
    requires
        len <= isize::MAX,
    ensures
        buffer_bytes(buf) == Seq::new(len as nat, |i: int| 0u8),
;

/// `BytesMut::len`: the number of bytes held.
pub assume_specification [BytesMut::len](buf: &BytesMut) -> (len: usize)
    ensures
        len == buffer_bytes(*buf).len(),
;

/// `BytesMut::is_empty`: whether no byte is held.
pub assume_specification [BytesMut::is_empty](buf: &BytesMut) -> (empty: bool)
    ensures
        empty == (buffer_bytes(*buf).len() == 0),
;

/// `BytesMut::extend_from_slice`: appends the slice. It panics when the
/// result is longer than can be allocated.
pub assume_specification [BytesMut::extend_from_slice](buf: &mut BytesMut, extend: &[u8])
    requires
        buffer_bytes(*old(buf)).len() + extend@.len() <= isize::MAX,
    ensures
        buffer_bytes(*final(buf)) == buffer_bytes(*old(buf)) + extend@,
;

/// `BytesMut::freeze`: the same bytes, no longer mutable.
pub assume_specification [BytesMut::freeze](buf: BytesMut) -> (shared: Bytes)
    ensures
        shared_bytes(shared) == buffer_bytes(buf),
;

/// `BytesMut::clone`: a second buffer with the same bytes.
pub assume_specification [<BytesMut as Clone>::clone](buf: &BytesMut) -> (copy: BytesMut)
    ensures
        buffer_bytes(copy) == buffer_bytes(*buf),
;

/// `Bytes::new`: no bytes.
pub assume_specification [Bytes::new]() -> (shared: Bytes)
    ensures
        shared_bytes(shared) == Seq::<u8>::empty(),
;

/// `Bytes::clone`: a second handle on the same bytes.
pub assume_specification [<Bytes as Clone>::clone](shared: &Bytes) -> (copy: Bytes)
    ensures
        shared_bytes(copy) == shared_bytes(*shared),
;

/// `Bytes::len`: the number of bytes held.
pub assume_specification [Bytes::len](shared: &Bytes) -> (len: usize)
    ensures
        len == shared_bytes(*shared).len(),
;

/// `Bytes::is_empty`: whether no byte is held.
pub assume_specification [Bytes::is_empty](shared: &Bytes) -> (empty: bool)
    ensures
        empty == (shared_bytes(*shared).len() == 0),
;

/// `Bytes::split_to`: takes the first `at` bytes off the front. It panics
/// when there are fewer.
pub assume_specification [Bytes::split_to](shared: &mut Bytes, at: usize) -> (front: Bytes)
    requires
        at <= shared_bytes(*old(shared)).len(),
    ensures
        shared_bytes(front) == shared_bytes(*old(shared)).subrange(0, at as int),
        shared_bytes(*final(shared)) == shared_bytes(*old(shared)).subrange(
            at as int,
            shared_bytes(*old(shared)).len() as int,
        ),
;

/// The bytes of a [`Bytes`] as a slice, by `Bytes::as_ref`.
#[verifier::external_body]
pub(crate) fn shared_slice(shared: &Bytes) -> (slice: &[u8])
    ensures
        slice@ == shared_bytes(*shared),
{
    shared.as_ref()
}

/// The bytes of a [`BytesMut`] as a slice, by `BytesMut::as_ref`.
#[verifier::external_body]
pub(crate) fn buffer_slice(buf: &BytesMut) -> (slice: &[u8])
    ensures
        slice@ == buffer_bytes(*buf),
{
    buf.as_ref()
}

/// The eight bytes of `n`, most significant first.
pub open spec fn be_bytes(n: u64) -> Seq<u8> {
    Seq::new(8, |i: int| (n >> ((56 - 8 * i) as u64)) as u8)
}

/// The number that eight bytes spell, most significant first.
pub open spec fn be_value(bytes: Seq<u8>) -> u64 {
    ((bytes[0] as u64) << 56) | ((bytes[1] as u64) << 48) | ((bytes[2] as u64) << 40) | ((
    bytes[3] as u64) << 32) | ((bytes[4] as u64) << 24) | ((bytes[5] as u64) << 16) | ((
    bytes[6] as u64) << 8) | (bytes[7] as u64)
}

/// Appends `n` in big-endian byte order, by `BufMut::put_u64`. It panics when
/// the result is longer than can be allocated.
#[verifier::external_body]
pub(crate) fn put_u64(buf: &mut BytesMut, n: u64)
    requires
        buffer_bytes(*old(buf)).len() + 8 <= isize::MAX,
    ensures
        buffer_bytes(*final(buf)) == buffer_bytes(*old(buf)) + be_bytes(n),
{
    buf.put_u64(n)
}

/// Reads eight bytes in big-endian order off the front of a slice, by
/// `Buf::get_u64`, and leaves the slice at what follows them. It panics when
/// there are fewer.
#[verifier::external_body]
pub(crate) fn get_u64(slice: &mut &[u8]) -> (n: u64)
    requires
        old(slice)@.len() >= 8,
    ensures
        n == be_value(old(slice)@.subrange(0, 8)),
        final(slice)@ == old(slice)@.subrange(8, old(slice)@.len() as int),
{
    slice.get_u64()
}

/// Reading back what was written gives the number that was written.
pub proof fn be_value_reads_be_bytes(n: u64)
    ensures
        be_value(be_bytes(n)) == n,
{
    let b0 = (n >> 56) as u8;
    let b1 = (n >> 48) as u8;
    let b2 = (n >> 40) as u8;
    let b3 = (n >> 32) as u8;
    let b4 = (n >> 24) as u8;
    let b5 = (n >> 16) as u8;
    let b6 = (n >> 8) as u8;
    let b7 = (n >> 0) as u8;
    assert(n == ((b0 as u64) << 56) | ((b1 as u64) << 48) | ((b2 as u64) << 40) | ((b3 as u64)
        << 32) | ((b4 as u64) << 24) | ((b5 as u64) << 16) | ((b6 as u64) << 8) | (b7 as u64))
        by (bit_vector)
        requires
            b0 == (n >> 56) as u8,
            b1 == (n >> 48) as u8,
            b2 == (n >> 40) as u8,
            b3 == (n >> 32) as u8,
            b4 == (n >> 24) as u8,
            b5 == (n >> 16) as u8,
            b6 == (n >> 8) as u8,
            b7 == (n >> 0) as u8,
    ;
}

} // verus!
