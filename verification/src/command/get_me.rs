//! The identity query: a no-payload command whose response schema the
//! protocol leaves unspecified.

use vstd::prelude::*;
use bytes::Bytes;
use crate::buf::bytes_from_vec;
use crate::command::{Command, EncodeError, ResponseError};

verus! {

/// Protocol code of the identity query.
pub const GET_ME: u32 = 20;

/// Identity query command: no payload. The response schema for this command
/// is not fixed by the protocol yet, so rather than guess a field layout,
/// decoding rejects every payload until a schema is defined.
#[derive(Debug)]
pub struct GetMe;

impl Command for GetMe {
    type ResponseModel = ();

    open spec fn spec_code() -> u32 {
        GET_ME
    }

    open spec fn wf(&self) -> bool {
        true
    }

    open spec fn spec_payload(&self) -> Seq<u8> {
        Seq::empty()
    }

    open spec fn spec_response(payload: Seq<u8>) -> Result<(), ResponseError> {
        Err(ResponseError)
    }

    proof fn wf_payload_fits(&self) {
    }

    fn code(&self) -> u32 {
        GET_ME
    }

    fn serialize(&self) -> (r: Result<Bytes, EncodeError>) {
        Ok(bytes_from_vec(Vec::new()))
    }

    fn from_response(response: Bytes) -> (r: Result<(), ResponseError>) {
        Err(ResponseError)
    }
}

} // verus!
