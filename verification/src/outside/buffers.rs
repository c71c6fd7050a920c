//! Byte buffers of the `bytes` crate.

use bytes::{BufMut, Bytes, BytesMut};
use vstd::prelude::*;

verus! {

/// A growable byte buffer.
#[verifier::external_type_specification]
#[verifier::external_body]
pub struct ExBytesMut(BytesMut);

/// A shared, immutable byte string.
#[verifier::external_type_specification]
#[verifier::external_body]
pub struct ExBytes(Bytes);

/// The bytes that a buffer holds.
pub uninterp spec fn buffered(buffer: BytesMut) -> Seq<u8>;

/// The bytes of a byte string.
pub uninterp spec fn content(bytes: Bytes) -> Seq<u8>;

/// `BytesMut::with_capacity`: an empty buffer with room for `capacity` bytes. A capacity beyond
/// `isize::MAX` panics.
#[verifier::external_body]
pub(crate) fn new_buffer(capacity: usize) -> (buffer: BytesMut)
    requires
        capacity <= isize::MAX,
    ensures
        buffered(buffer) == Seq::<u8>::empty(),
{
    BytesMut::with_capacity(capacity)
}

/// `BufMut::put` on a slice: appends the slice. The buffer doubles its room when it grows, which
/// panics once that passes `isize::MAX`.
#[verifier::external_body]
pub(crate) fn append(buffer: &mut BytesMut, slice: &[u8])
    requires
        buffered(*old(buffer)).len() + slice@.len() <= isize::MAX / 2,
    ensures
        buffered(*final(buffer)) == buffered(*old(buffer)) + slice@,
{
    buffer.put(slice)
}

/// `BytesMut::len`: the number of bytes held.
pub assume_specification[ BytesMut::len ](buffer: &BytesMut) -> (len: usize)
    ensures
        len == buffered(*buffer).len(),
;

/// `BytesMut::freeze`: the same bytes as a byte string.
pub assume_specification[ BytesMut::freeze ](buffer: BytesMut) -> (bytes: Bytes)
    ensures
        content(bytes) == buffered(buffer),
;

/// `Bytes::new`: the empty byte string.
#[verifier::external_body]
pub(crate) fn no_bytes() -> (bytes: Bytes)
    ensures
        content(bytes) == Seq::<u8>::empty(),
{
    Bytes::new()
}

/// `Deref::deref` of `Bytes`: the bytes as a slice.
#[verifier::external_body]
pub(crate) fn as_slice(bytes: &Bytes) -> (slice: &[u8])
    ensures
        slice@ == content(*bytes),
{
    bytes
}

} // verus!
