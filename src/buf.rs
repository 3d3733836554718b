//! Byte buffers of the `bytes` crate, as the framer and the relay use them.
//!
//! `BytesMut` is a growable buffer with cheap splitting, `Bytes` an immutable
//! shared view. Both are opaque here; what they hold is named by
//! [`buf_bytes`] and [`shared_bytes`], and each operation used by the library
//! states its effect over those names.
use bytes::{Bytes, BytesMut};
use vstd::prelude::*;

verus! {

#[verifier::external_type_specification]
#[verifier::external_body]
pub struct ExBytesMut(BytesMut);

#[verifier::external_type_specification]
#[verifier::external_body]
pub struct ExBytes(Bytes);

/// The bytes that a `BytesMut` currently holds, in order.
pub uninterp spec fn buf_bytes(b: BytesMut) -> Seq<u8>;

/// The bytes that a `Bytes` handle refers to, in order.
pub uninterp spec fn shared_bytes(b: Bytes) -> Seq<u8>;

/// Relies on `BytesMut::new`: a new buffer holds no bytes.
#[verifier::external_body]
pub(crate) fn buf_new() -> (r: BytesMut)
    ensures
        buf_bytes(r) == Seq::<u8>::empty(),
{
    BytesMut::new()
}

/// Relies on `BytesMut::extend_from_slice`: it reserves room first, then
/// appends the slice at the end; it panics only when the new capacity
/// overflows `usize`.
#[verifier::external_body]
pub(crate) fn buf_extend(b: &mut BytesMut, s: &[u8])
    requires
        buf_bytes(*old(b)).len() + s@.len() <= usize::MAX,
    ensures
        buf_bytes(*final(b)) == buf_bytes(*old(b)) + s@,
{
    b.extend_from_slice(s)
}

/// Relies on `BytesMut::split_to`: the first `at` bytes are returned and the
/// rest stay; it panics when `at` exceeds the length.
#[verifier::external_body]
pub(crate) fn buf_split_to(b: &mut BytesMut, at: usize) -> (r: BytesMut)
    requires
        at <= buf_bytes(*old(b)).len(),
    ensures
        buf_bytes(r) == buf_bytes(*old(b)).subrange(0, at as int),
        buf_bytes(*final(b)) == buf_bytes(*old(b)).subrange(at as int, buf_bytes(*old(b)).len() as int),
{
    b.split_to(at)
}

/// Relies on `BytesMut::truncate`: keeps the first `len` bytes, and has no
/// effect when `len` is not below the length.
#[verifier::external_body]
pub(crate) fn buf_truncate(b: &mut BytesMut, len: usize)
    ensures
        buf_bytes(*final(b)) == if len < buf_bytes(*old(b)).len() {
            buf_bytes(*old(b)).subrange(0, len as int)
        } else {
            buf_bytes(*old(b))
        },
{
    b.truncate(len)
}

/// Relies on `BytesMut`'s `Deref` to `[u8]`: the slice is the buffer's bytes.
#[verifier::external_body]
pub(crate) fn buf_slice(b: &BytesMut) -> (r: &[u8])
    ensures
        r@ == buf_bytes(*b),
{
    &b[..]
}

/// The number of bytes a buffer holds, so that callers can check a bound on
/// it before appending.
pub fn buffer_len(b: &BytesMut) -> (r: usize)
    ensures
        r == buf_bytes(*b).len(),
{
    buf_slice(b).len()
}

/// Relies on `BytesMut::freeze`: the immutable handle refers to the same
/// bytes.
#[verifier::external_body]
pub(crate) fn buf_freeze(b: BytesMut) -> (r: Bytes)
    ensures
        shared_bytes(r) == buf_bytes(b),
{
    b.freeze()
}

/// Relies on `Bytes::clone`: a second handle to the same bytes, sharing the
/// storage rather than copying it.
#[verifier::external_body]
pub(crate) fn share(b: &Bytes) -> (r: Bytes)
    ensures
        shared_bytes(r) == shared_bytes(*b),
{
    b.clone()
}

/// Relies on `Bytes`'s `Deref` to `[u8]`: the slice is the handle's bytes.
#[verifier::external_body]
pub(crate) fn shared_slice(b: &Bytes) -> (r: &[u8])
    ensures
        r@ == shared_bytes(*b),
{
    &b[..]
}

} // verus!
