//! The growable byte buffer that holds a request while it is inspected.

use vstd::prelude::*;

verus! {

/// The growable byte buffer of the `bytes` crate.
#[verifier::external_type_specification]
#[verifier::external_body]
pub struct ExBytesMut(bytes::BytesMut);

/// The bytes that a `BytesMut` holds, in order.
pub uninterp spec fn buffer_bytes(b: bytes::BytesMut) -> Seq<u8>;

/// Calls `BytesMut::from` on a slice, which copies the slice into a new
/// buffer.
#[verifier::external_body]
pub(crate) fn buffer_from_slice(bytes: &[u8]) -> (b: bytes::BytesMut)
    ensures
        buffer_bytes(b) == bytes@,
{
    bytes::BytesMut::from(bytes)
}

/// `BytesMut::as_ref` returns the buffer's bytes as a slice.
pub assume_specification[ <bytes::BytesMut as core::convert::AsRef<[u8]>>::as_ref ](
    b: &bytes::BytesMut,
) -> (s: &[u8])
    ensures
        s@ == buffer_bytes(*b),
;

} // verus!
