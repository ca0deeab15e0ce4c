//! Typed failures of the protocol client.
//!
//! Every fallible operation returns one of these variants; nothing in the
//! library aborts on malformed input received from the network.

use vstd::prelude::*;

verus! {

/// The failure taxonomy of the client.
///
/// - `Deserialization`: input bytes do not parse as a value of the expected
///   type (wrong length, invalid encoding).
/// - `Protocol`: a parsed value fails a group-membership or internal
///   invariant check (identity element, reflected OPRF value, invalid
///   scalar).
/// - `Authentication`: the login transcript's proof does not verify (wrong
///   password, tampered message, or mismatched state) — a single
///   undifferentiated outcome.
/// - `Decryption`: authenticated decryption of the token failed its tag
///   check.
/// - `Encoding`: decrypted token bytes are not valid UTF-8.
#[derive(Clone, Copy, Debug, PartialEq, Eq, Structural)]
pub enum ClientError {
    Deserialization,
    Protocol,
    Authentication,
    Decryption,
    Encoding,
}

impl ClientError {
    /// The generic user-visible message for this failure. Authentication
    /// failures carry no detail on which step failed, and all
    /// malformed-response failures share one message, so that neither is
    /// usable as a password-guessing oracle.
    pub fn message(&self) -> (r: &'static str)
        ensures
            self is Authentication ==> r@ == "authentication failed"@,
            self is Deserialization || self is Protocol ==> r@ == "invalid response"@,
            self is Decryption ==> r@ == "decryption failed"@,
            self is Encoding ==> r@ == "invalid UTF-8"@,
    {
        match self {
            ClientError::Authentication => "authentication failed",
            ClientError::Deserialization => "invalid response",
            ClientError::Protocol => "invalid response",
            ClientError::Decryption => "decryption failed",
            ClientError::Encoding => "invalid UTF-8",
        }
    }
}

} // verus!
