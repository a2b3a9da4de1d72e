//! Commands: the closed contract every application operation satisfies.
//!
//! A command is a typed operation defined by a fixed numeric code, a payload
//! serializer and a response-payload parser. Commands are immutable value
//! objects that exist for the duration of one exchange; the client never
//! needs to know a command's encoding, only the frame it yields.

mod get_me;
mod login_user;
mod ping;

pub use get_me::GetMe;
pub use login_user::{IdentityInfo, LoginUser, UserId};
pub use ping::Ping;

use vstd::prelude::*;
use bytes::Bytes;
use crate::buf::bytes_seq;
use crate::codec;

verus! {

/// A command's response payload does not satisfy the command's
/// minimum-length or structural precondition.
#[derive(Debug, Clone, Copy, PartialEq, Eq)]
pub struct ResponseError;

/// A command's fields exceed the wire format's limits, so its payload cannot
/// be encoded without truncating them.
#[derive(Debug, Clone, Copy, PartialEq, Eq)]
pub struct EncodeError;

/// The capability set of one protocol operation: a numeric code, a payload
/// serializer and a response-payload parser.
pub trait Command: Sized {
    /// The typed result decoded from a raw response payload.
    type ResponseModel;

    /// The command's fixed numeric identifier, stable for the lifetime of
    /// the protocol version.
    spec fn spec_code() -> u32;

    /// The command's fields fit the wire format's limits, so its payload can
    /// be encoded without truncation.
    spec fn wf(&self) -> bool;

    /// The command-specific payload bytes (possibly empty).
    spec fn spec_payload(&self) -> Seq<u8>
        recommends
            self.wf(),
    ;

    /// What decoding owes for every possible response payload.
    spec fn spec_response(payload: Seq<u8>) -> Result<Self::ResponseModel, ResponseError>;

    /// A well-formed command's payload leaves room for the code field in the
    /// frame's 32-bit length field.
    proof fn wf_payload_fits(&self)
        requires
            self.wf(),
        ensures
            self.spec_payload().len() + 4 <= u32::MAX,
    ;

    /// The command's numeric code.
    fn code(&self) -> (c: u32)
        ensures
            c == Self::spec_code(),
    ;

    /// Serialize the command-specific payload. A command whose fields exceed
    /// the wire format's limits is rejected with an encoding error rather
    /// than truncated silently.
    fn serialize(&self) -> (r: Result<Bytes, EncodeError>)
        ensures
            r is Ok <==> self.wf(),
            r is Ok ==> bytes_seq(r->Ok_0) == self.spec_payload(),
    ;

    /// Decode the raw response payload (not the frame header) into the
    /// command's typed result.
    fn from_response(response: Bytes) -> (r: Result<Self::ResponseModel, ResponseError>)
        ensures
            r == Self::spec_response(bytes_seq(response)),
    ;

    /// Build the whole request frame for this command: its code and payload
    /// framed by the codec. Fails exactly when the payload cannot be encoded.
    fn into_request(self) -> (r: Result<Bytes, EncodeError>)
        ensures
            r is Ok <==> self.wf(),
            r is Ok ==> bytes_seq(r->Ok_0) == codec::spec_request(
                Self::spec_code(),
                self.spec_payload(),
            ),
    {
        let c = self.code();
        let payload = match self.serialize() {
            Ok(p) => p,
            Err(e) => {
                return Err(e);
            },
        };
        proof {
            self.wf_payload_fits();
        }
        Ok(codec::build_request(c, &payload))
    }
}

} // verus!
