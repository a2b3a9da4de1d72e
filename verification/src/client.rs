//! Decision logic of the client's request/response exchange.
//!
//! The client owns the single transport connection and serializes whole
//! exchanges through an exclusive-access guard, so that a second caller's
//! request is never written before the first caller's full response has been
//! read. The transport itself (an ordered, reliable byte stream with
//! asynchronous connect, write, flush and read) is an outside collaborator;
//! the caller runs the I/O and hands each read's outcome to the decision
//! functions here, which state exactly what the exchange owes at each step.

use vstd::prelude::*;
use vstd::bytes::*;
use bytes::Bytes;
use crate::buf::{bytes_from_vec, bytes_seq};
use crate::codec;

verus! {

/// Failure of one `send_command` exchange.
#[derive(Debug, Clone, Copy, PartialEq, Eq)]
pub enum ClientError {
    /// Fewer bytes were read than the protocol declares, at the header stage
    /// or at the payload stage.
    Truncated,
    /// The server answered with this nonzero status code.
    ServerError(u32),
    /// The underlying stream failed on write or read, other than by
    /// truncation.
    TransportIO,
}

/// Transport-level failure of `connect` (unreachable address, refused
/// connection). The caller owns any retry policy.
#[derive(Debug, Clone, Copy, PartialEq, Eq)]
pub struct ConnectionError;

/// The outcome the exchange owes after the header read: truncation when fewer
/// than eight bytes arrived, the server's status as an error when it is
/// nonzero, and otherwise the declared payload length, which the caller must
/// then read in full.
pub open spec fn spec_header_outcome(header: Seq<u8>, n_read: int) -> Result<u32, ClientError>
    recommends
        header.len() == 8,
{
    if n_read < 8 {
        Err(ClientError::Truncated)
    } else {
        let status = spec_u32_from_le_bytes(header.subrange(0, 4));
        if status != 0 {
            Err(ClientError::ServerError(status))
        } else {
            Ok(spec_u32_from_le_bytes(header.subrange(4, 8)))
        }
    }
}

/// Decide the exchange's next step after the header read. `buf` is the
/// eight-byte header buffer and `n_read` is how many bytes the transport
/// yielded into it: a short read fails with `Truncated` and never reaches a
/// decoded result, a nonzero status fails with `ServerError`, and otherwise
/// the declared payload length is returned.
pub fn handle_header_read(buf: &[u8], n_read: usize) -> (r: Result<u32, ClientError>)
    requires
        buf@.len() == 8,
        n_read <= 8,
    ensures
        r == spec_header_outcome(buf@, n_read as int),
        n_read < 8 ==> r == Err::<u32, ClientError>(ClientError::Truncated),
{
    if n_read < 8 {
        return Err(ClientError::Truncated);
    }
    let (status, len) = codec::parse_response_header(buf);
    if status != 0 {
        return Err(ClientError::ServerError(status));
    }
    Ok(len)
}

/// Accept or reject the payload read. `buf` was sized to the declared payload
/// length and `n_read` is how many bytes the transport yielded into it: a
/// short read fails with `Truncated`, and a full read hands the payload bytes
/// to the caller unchanged.
pub fn handle_payload_read(buf: Vec<u8>, n_read: usize) -> (r: Result<Bytes, ClientError>)
    requires
        n_read <= buf@.len(),
    ensures
        n_read < buf@.len() ==> r == Err::<Bytes, ClientError>(ClientError::Truncated),
        n_read == buf@.len() ==> r is Ok && bytes_seq(r->Ok_0) == buf@,
{
    if n_read < buf.len() {
        return Err(ClientError::Truncated);
    }
    Ok(bytes_from_vec(buf))
}

} // verus!
