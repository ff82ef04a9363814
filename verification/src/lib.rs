//! Verified core of a voice-memo service: credential cipher, token codec,
//! user/credential/memo stores, and the generation-gateway request shaping.

pub mod cipher;
pub mod gemini;
pub mod ids;
pub mod memo;
pub mod memo_api_store_ops;
pub mod store;
pub mod text;
pub mod token;
pub mod user;

use vstd::prelude::*;

verus! {

/// Seconds a freshly issued identity token stays valid: 24 hours.
pub const TOKEN_TTL_SECONDS: u64 = 86400;

/// Process configuration: the fixed symmetric key of the credential cipher and
/// the token-signing secret, supplied at startup.
pub struct Config {
    pub cipher_key: Vec<u8>,
    pub jwt_secret: Vec<u8>,
}

impl Config {
    /// The cipher needs a 256-bit key.
    pub open spec fn wf(&self) -> bool {
        self.cipher_key@.len() == 32
    }

    pub fn new(cipher_key: Vec<u8>, jwt_secret: Vec<u8>) -> (r: Result<Config, String>)
        ensures
            r matches Ok(c) ==> c.wf() && c.cipher_key@ == cipher_key@ && c.jwt_secret@
                == jwt_secret@,
            (r is Ok) == (cipher_key@.len() == 32),
    {
        if cipher_key.len() == 32 {
            Ok(Config { cipher_key, jwt_secret })
        } else {
            Err("the cipher key must be exactly 32 bytes".to_owned())
        }
    }
}

/// The typed outcome of a failed operation; the transport layer maps each
/// variant to a status code.
#[derive(Debug)]
pub enum ApiError {
    /// Missing, invalid or expired token, or wrong credentials.
    Unauthorized(String),
    /// The resource is absent (or owned by someone else, for memos).
    NotFound(String),
    /// Malformed or missing required input.
    BadRequest(String),
    /// Duplicate email at signup.
    Conflict(String),
    /// A store, cipher or codec failure.
    Internal(String),
}

impl ApiError {
    /// The human-readable message carried by any variant.
    pub open spec fn msg_spec(&self) -> Seq<char> {
        match *self {
            ApiError::Unauthorized(ref m) => m@,
            ApiError::NotFound(ref m) => m@,
            ApiError::BadRequest(ref m) => m@,
            ApiError::Conflict(ref m) => m@,
            ApiError::Internal(ref m) => m@,
        }
    }

    pub fn message(&self) -> (r: &String)
        ensures
            r@ == self.msg_spec(),
    {
        match self {
            ApiError::Unauthorized(m) => m,
            ApiError::NotFound(m) => m,
            ApiError::BadRequest(m) => m,
            ApiError::Conflict(m) => m,
            ApiError::Internal(m) => m,
        }
    }
}

} // verus!
