//! Byte strings as they travel between the media elements and the flows.

use bytes::{Bytes, BytesMut};
use vstd::prelude::*;

verus! {

/// A byte string that is shared and does not change.
#[verifier::external_type_specification]
#[verifier::external_body]
pub struct ExBytes(Bytes);

/// A byte string under construction.
#[verifier::external_type_specification]
#[verifier::external_body]
pub struct ExBytesMut(BytesMut);

/// What a `Bytes` holds.
pub uninterp spec fn octets(bytes: Bytes) -> Seq<u8>;

/// What a `BytesMut` holds.
pub uninterp spec fn buffered(buf: BytesMut) -> Seq<u8>;

/// `BytesMut::new`: an empty buffer.
pub assume_specification[ BytesMut::new ]() -> (buf: BytesMut)
    ensures
        buffered(buf) == Seq::<u8>::empty(),
;

/// `BytesMut::resize`: the buffer is cut off at `new_len`, or filled up to it
/// with `value`. The bound keeps the buffer's growth, which may double its
/// capacity, within what can be allocated.
pub assume_specification[ BytesMut::resize ](buf: &mut BytesMut, new_len: usize, value: u8)
    requires
        new_len <= isize::MAX / 2,
    ensures
        buffered(*final(buf)) == if new_len <= buffered(*old(buf)).len() {
            buffered(*old(buf)).take(new_len as int)
        } else {
            buffered(*old(buf)) + Seq::new(
                (new_len - buffered(*old(buf)).len()) as nat,
                |i: int| value,
            )
        },
;

/// `BytesMut::freeze`: the same bytes, no longer to be changed.
pub assume_specification[ BytesMut::freeze ](buf: BytesMut) -> (bytes: Bytes)
    ensures
        octets(bytes) == buffered(buf),
;

/// `Bytes::as_ref`: the bytes themselves.
#[verifier::external_body]
pub(crate) fn bytes_as_slice(bytes: &Bytes) -> (slice: &[u8])
    ensures
        slice@ == octets(*bytes),
{
    bytes.as_ref()
}

/// `Bytes::from` on a vector: the vector's bytes.
#[verifier::external_body]
pub(crate) fn bytes_from_vec(data: Vec<u8>) -> (bytes: Bytes)
    ensures
        octets(bytes) == data@,
{
    Bytes::from(data)
}

} // verus!
