//! Frame codec: pure translation between typed envelopes and wire bytes.
//!
//! A request frame is `len32LE . code32LE . payload`, where the length field
//! counts the code field plus the payload (4 + payload length), not itself.
//! A response frame starts with `status32LE . payload_len32LE`, followed by
//! exactly `payload_len` payload bytes.

use vstd::prelude::*;
use vstd::bytes::*;
use vstd::slice::{slice_index_get, slice_subrange};
use bytes::Bytes;
use crate::buf::{bytes_as_slice, bytes_from_vec, bytes_seq};

verus! {

/// The wire bytes of a request frame carrying `code` and `payload`:
/// the length field (4 + payload length) in little-endian, then the code
/// in little-endian, then the payload unchanged.
pub open spec fn spec_request(code: u32, payload: Seq<u8>) -> Seq<u8>
    recommends
        payload.len() + 4 <= u32::MAX,
{
    spec_u32_to_le_bytes((payload.len() + 4) as u32) + spec_u32_to_le_bytes(code) + payload
}

/// Append every byte of `src` to `dst`, in order.
pub(crate) fn append_slice(dst: &mut Vec<u8>, src: &[u8])
    ensures
        final(dst)@ == old(dst)@ + src@,
{
    let n = src.len();
    let mut i: usize = 0;
    while i < n
        invariant
            i <= n,
            n == src@.len(),
            dst@ == old(dst)@ + src@.subrange(0, i as int),
        decreases n - i,
    {
        let b = *slice_index_get(src, i);
        dst.push(b);
        i = i + 1;
        proof {
            assert(dst@ =~= old(dst)@ + src@.subrange(0, i as int));
        }
    }
    proof {
        assert(src@.subrange(0, n as int) =~= src@);
    }
}

/// Build a request frame from a command code and its serialized payload.
/// The payload must leave room for the code field in the frame's 32-bit
/// length; the command layer checks this before framing.
pub fn build_request(code: u32, payload: &Bytes) -> (r: Bytes)
    requires
        bytes_seq(*payload).len() + 4 <= u32::MAX,
    ensures
        bytes_seq(r) == spec_request(code, bytes_seq(*payload)),
{
    let p = bytes_as_slice(payload);
    let len_field = (p.len() + 4) as u32;
    let mut out = u32_to_le_bytes(len_field);
    let mut code_bytes = u32_to_le_bytes(code);
    out.append(&mut code_bytes);
    append_slice(&mut out, p);
    proof {
        assert(out@ =~= spec_request(code, bytes_seq(*payload)));
    }
    bytes_from_vec(out)
}

/// Parse the first eight bytes of a response frame into the status code and
/// the declared payload length, both little-endian 32-bit values in that
/// order. The caller must supply exactly eight bytes; receiving fewer from
/// the transport is the caller's truncation error, not a codec concern.
pub fn parse_response_header(header: &[u8]) -> (r: (u32, u32))
    requires
        header@.len() == 8,
    ensures
        r.0 == spec_u32_from_le_bytes(header@.subrange(0, 4)),
        r.1 == spec_u32_from_le_bytes(header@.subrange(4, 8)),
{
    let status = u32_from_le_bytes(slice_subrange(header, 0, 4));
    let len = u32_from_le_bytes(slice_subrange(header, 4, 8));
    (status, len)
}

/// Layout law of request framing: for every code and payload, the frame
/// always begins with `4 + payload length` encoded little-endian, followed
/// by the code little-endian, followed by the payload unchanged. (Request
/// framing differs from response framing, so feeding a request's first eight
/// bytes to the response-header parser has no meaning of its own.)
pub proof fn lemma_request_layout(code: u32, payload: Seq<u8>)
    requires
        payload.len() + 4 <= u32::MAX,
    ensures
        spec_request(code, payload).len() == 8 + payload.len(),
        spec_request(code, payload).subrange(0, 4) == spec_u32_to_le_bytes(
            (payload.len() + 4) as u32,
        ),
        spec_request(code, payload).subrange(4, 8) == spec_u32_to_le_bytes(code),
        spec_request(code, payload).skip(8) == payload,
{
    lemma_auto_spec_u32_to_from_le_bytes();
    assert(spec_request(code, payload).subrange(0, 4) =~= spec_u32_to_le_bytes(
        (payload.len() + 4) as u32,
    ));
    assert(spec_request(code, payload).subrange(4, 8) =~= spec_u32_to_le_bytes(code));
    assert(spec_request(code, payload).skip(8) =~= payload);
}

} // verus!
