use vstd::prelude::*;

use bytes::BytesMut;

verus! {

#[verifier::external_type_specification]
#[verifier::external_body]
pub struct ExBytesMut(BytesMut);

/// The bytes a buffer holds, in order.
pub uninterp spec fn buffer_bytes(b: BytesMut) -> Seq<u8>;

/// Relies on BytesMut::with_capacity: a buffer holding no bytes.
#[verifier::external_body]
pub(crate) fn buffer_with_capacity(capacity: usize) -> (r: BytesMut)
    requires
        capacity <= isize::MAX,
    ensures
        buffer_bytes(r) == Seq::<u8>::empty(),
{
    BytesMut::with_capacity(capacity)
}

/// Relies on BytesMut::len: the number of bytes held.
#[verifier::external_body]
pub(crate) fn buffer_len(b: &BytesMut) -> (r: usize)
    ensures
        r == buffer_bytes(*b).len(),
{
    b.len()
}

/// Relies on BytesMut's deref to `[u8]`: the byte at `i`.
#[verifier::external_body]
pub(crate) fn buffer_byte(b: &BytesMut, i: usize) -> (r: u8)
    requires
        i < buffer_bytes(*b).len(),
    ensures
        r == buffer_bytes(*b)[i as int],
{
    b[i]
}

/// Relies on BytesMut::extend_from_slice: `data` is appended.
#[verifier::external_body]
pub(crate) fn buffer_extend(b: &mut BytesMut, data: &[u8])
    requires
        buffer_bytes(*old(b)).len() + data@.len() <= isize::MAX,
    ensures
        buffer_bytes(*final(b)) == buffer_bytes(*old(b)) + data@,
{
    b.extend_from_slice(data)
}

/// Relies on BytesMut::split_to: the first `at` bytes leave the buffer and are returned.
#[verifier::external_body]
pub(crate) fn buffer_split_to(b: &mut BytesMut, at: usize) -> (r: BytesMut)
    requires
        at <= buffer_bytes(*old(b)).len(),
    ensures
        buffer_bytes(r) == buffer_bytes(*old(b)).subrange(0, at as int),
        buffer_bytes(*final(b)) == buffer_bytes(*old(b)).subrange(
            at as int,
            buffer_bytes(*old(b)).len() as int,
        ),
{
    b.split_to(at)
}

} // verus!
