//! The liveness probe: a no-payload command whose response carries no data.

use vstd::prelude::*;
use bytes::Bytes;
use crate::buf::bytes_from_vec;
use crate::command::{Command, EncodeError, ResponseError};

verus! {

/// Protocol code of the liveness probe.
pub const PING_CODE: u32 = 1;

/// Liveness probe command: no payload, and its response decodes to nothing.
#[derive(Debug)]
pub struct Ping;

impl Command for Ping {
    type ResponseModel = ();

    open spec fn spec_code() -> u32 {
        PING_CODE
    }

    open spec fn wf(&self) -> bool {
        true
    }

    open spec fn spec_payload(&self) -> Seq<u8> {
        Seq::empty()
    }

    open spec fn spec_response(payload: Seq<u8>) -> Result<(), ResponseError> {
        Ok(())
    }

    proof fn wf_payload_fits(&self) {
    }

    fn code(&self) -> u32 {
        PING_CODE
    }

    fn serialize(&self) -> (r: Result<Bytes, EncodeError>) {
        Ok(bytes_from_vec(Vec::new()))
    }

    fn from_response(response: Bytes) -> (r: Result<(), ResponseError>) {
        Ok(())
    }
}

/// Liveness-probe law: decoding the probe's response succeeds on every
/// payload, including the empty one.
pub proof fn lemma_ping_response_always_ok(payload: Seq<u8>)
    ensures
        <Ping as Command>::spec_response(payload) == Ok::<(), ResponseError>(()),
{
}

} // verus!
