//! Trusted declarations for the `bytes` crate's immutable byte buffer, which
//! carries request frames and response payloads through the library.

use vstd::prelude::*;
use bytes::Bytes;

verus! {

/// `bytes::Bytes`, declared so that it can stand in signatures; contracts see
/// its contents only through [`bytes_seq`].
#[verifier::external_type_specification]
#[verifier::external_body]
pub struct ExBytes(Bytes);

/// The byte contents of a `bytes::Bytes` buffer.
pub uninterp spec fn bytes_seq(b: Bytes) -> Seq<u8>;

/// Relies on `impl From<Vec<u8>> for bytes::Bytes`: the buffer takes over the
/// vector's bytes unchanged.
#[verifier::external_body]
pub(crate) fn bytes_from_vec(v: Vec<u8>) -> (b: Bytes)
    ensures
        bytes_seq(b) == v@,
{
    Bytes::from(v)
}

/// Relies on `impl Deref for bytes::Bytes` (target `[u8]`): the slice of all
/// bytes the buffer holds, in order.
#[verifier::external_body]
pub(crate) fn bytes_as_slice(b: &Bytes) -> (s: &[u8])
    ensures
        s@ == bytes_seq(*b),
{
    b
}

} // verus!
