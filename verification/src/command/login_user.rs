//! The authentication command: username, password and two optional
//! free-form strings, answered with the user's identity.

use vstd::prelude::*;
use vstd::bytes::*;
use vstd::slice::slice_subrange;
use vstd::string::*;
use bytes::Bytes;
use crate::buf::{bytes_as_slice, bytes_from_vec};
use crate::codec::append_slice;
use crate::command::{Command, EncodeError, ResponseError};

verus! {

/// Protocol code of the authentication command.
pub const LOGIN_USER: u32 = 38;

/// The numeric identifier the server assigns to a user.
pub type UserId = u32;

/// Authentication command: a short username, a short password, and two
/// optional free-form strings (client version and client context).
#[derive(Debug)]
pub struct LoginUser {
    pub username: &'static str,
    pub password: &'static str,
    pub version: Option<&'static str>,
    pub context: Option<&'static str>,
}

impl LoginUser {
    pub fn new(
        username: &'static str,
        password: &'static str,
        version: Option<&'static str>,
        context: Option<&'static str>,
    ) -> (r: Self)
        ensures
            r == (LoginUser { username, password, version, context }),
    {
        Self { username, password, version, context }
    }
}

/// Typed result of the authentication command.
#[derive(Debug, Clone, Copy, PartialEq, Eq)]
pub struct IdentityInfo {
    pub user_id: UserId,
    pub access_token: Option<u32>,
}

/// The UTF-8 bytes of an optional string: empty when absent.
pub open spec fn spec_opt_bytes(s: Option<&str>) -> Seq<u8> {
    match s {
        Some(v) => v.spec_bytes(),
        None => Seq::empty(),
    }
}

/// The authentication payload over the four fields' UTF-8 bytes: the
/// username and password each prefixed by their length as a single byte,
/// then the optional version and context strings each prefixed by their
/// length as a little-endian 32-bit value (zero when absent).
pub open spec fn spec_login_payload(
    username: Seq<u8>,
    password: Seq<u8>,
    version: Seq<u8>,
    context: Seq<u8>,
) -> Seq<u8>
    recommends
        username.len() <= 255,
        password.len() <= 255,
        version.len() <= u32::MAX,
        context.len() <= u32::MAX,
{
    seq![username.len() as u8] + username + seq![password.len() as u8] + password
        + spec_u32_to_le_bytes(version.len() as u32) + version + spec_u32_to_le_bytes(
        context.len() as u32,
    ) + context
}

impl Command for LoginUser {
    type ResponseModel = IdentityInfo;

    open spec fn spec_code() -> u32 {
        LOGIN_USER
    }

    open spec fn wf(&self) -> bool {
        &&& self.username.spec_bytes().len() <= 255
        &&& self.password.spec_bytes().len() <= 255
        &&& self.spec_payload().len() + 4 <= u32::MAX
    }

    open spec fn spec_payload(&self) -> Seq<u8> {
        spec_login_payload(
            self.username.spec_bytes(),
            self.password.spec_bytes(),
            spec_opt_bytes(self.version),
            spec_opt_bytes(self.context),
        )
    }

    /// The response payload must hold at least four bytes; its first four are
    /// the little-endian user identifier. The protocol grants no access token
    /// in this response.
    open spec fn spec_response(payload: Seq<u8>) -> Result<IdentityInfo, ResponseError> {
        if payload.len() < 4 {
            Err(ResponseError)
        } else {
            Ok(
                IdentityInfo {
                    user_id: spec_u32_from_le_bytes(payload.subrange(0, 4)),
                    access_token: None,
                },
            )
        }
    }

    proof fn wf_payload_fits(&self) {
    }

    fn code(&self) -> u32 {
        LOGIN_USER
    }

    fn serialize(&self) -> (r: Result<Bytes, EncodeError>) {
        proof {
            lemma_auto_spec_u32_to_from_le_bytes();
        }
        let ub = self.username.as_bytes();
        let pb = self.password.as_bytes();
        if ub.len() > 255 || pb.len() > 255 {
            return Err(EncodeError);
        }
        let vlen: usize = match self.version {
            Some(v) => v.as_bytes().len(),
            None => 0,
        };
        let clen: usize = match self.context {
            Some(c) => c.as_bytes().len(),
            None => 0,
        };
        if vlen as u64 > u32::MAX as u64 || clen as u64 > u32::MAX as u64 {
            return Err(EncodeError);
        }
        let total: u64 = 10 + ub.len() as u64 + pb.len() as u64 + vlen as u64 + clen as u64;
        if total > u32::MAX as u64 - 4 {
            return Err(EncodeError);
        }

        let mut out: Vec<u8> = Vec::new();
        out.push(ub.len() as u8);
        append_slice(&mut out, ub);
        out.push(pb.len() as u8);
        append_slice(&mut out, pb);
        let mut vlen_bytes = u32_to_le_bytes(vlen as u32);
        out.append(&mut vlen_bytes);
        if let Some(v) = self.version {
            append_slice(&mut out, v.as_bytes());
        }
        let mut clen_bytes = u32_to_le_bytes(clen as u32);
        out.append(&mut clen_bytes);
        if let Some(c) = self.context {
            append_slice(&mut out, c.as_bytes());
        }
        proof {
            assert(out@ =~= self.spec_payload());
        }
        Ok(bytes_from_vec(out))
    }

    fn from_response(response: Bytes) -> (r: Result<IdentityInfo, ResponseError>) {
        let s = bytes_as_slice(&response);
        if s.len() < 4 {
            return Err(ResponseError);
        }
        let user_id = u32_from_le_bytes(slice_subrange(s, 0, 4));
        Ok(IdentityInfo { user_id, access_token: None })
    }
}

/// Authentication-decode law: decoding succeeds exactly on payloads of at
/// least four bytes, and then yields the little-endian user identifier read
/// from the first four, with no access token granted.
pub proof fn lemma_login_response(payload: Seq<u8>)
    ensures
        <LoginUser as Command>::spec_response(payload) is Ok <==> payload.len() >= 4,
        payload.len() >= 4 ==> <LoginUser as Command>::spec_response(payload) == Ok::<
            IdentityInfo,
            ResponseError,
        >(
            (IdentityInfo {
                user_id: spec_u32_from_le_bytes(payload.subrange(0, 4)),
                access_token: None,
            }),
        ),
{
}

} // verus!
