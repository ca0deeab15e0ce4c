//! Client side of an asymmetric password-authenticated key exchange (PAKE),
//! together with decryption of a server-issued token under the derived
//! session key.
//!
//! The two state machines (registration and login) blind the password
//! through an oblivious PRF over Ristretto255, stretch the unblinded output
//! through Argon2, and complete a triple Diffie-Hellman key exchange; the
//! cryptographic steps are carried out by the `opaque_ke` crate behind
//! trusted wrappers, while the orchestration, message framing and error
//! discipline around them are verified here.

use vstd::prelude::*;

pub mod errors;
pub mod login;
pub mod registration;
pub mod suite;
pub mod token;

pub use errors::ClientError;
pub use login::{login_finish, login_start, LoginFinishResult, LoginStartResult};
pub use registration::{registration_finish, registration_start, RegistrationStartResult};
pub use token::decrypt_token;

verus! {

/// Byte length of a serialized client registration state
/// (blinding scalar plus blinded group element).
pub const REG_STATE_LEN: usize = 64;

/// Byte length of a serialized registration request message
/// (one group element).
pub const REG_REQUEST_LEN: usize = 32;

/// Byte length of a serialized registration response
/// (evaluated group element plus server public key).
pub const REG_RESPONSE_LEN: usize = 64;

/// Byte length of a serialized registration upload envelope
/// (client public key, masking key, and envelope).
pub const REG_UPLOAD_LEN: usize = 192;

/// Byte length of a serialized client login state
/// (blinding scalar, credential request, and key-exchange ephemerals).
pub const LOGIN_STATE_LEN: usize = 192;

/// Byte length of a serialized credential request
/// (blinded element plus first key-exchange flight).
pub const LOGIN_REQUEST_LEN: usize = 96;

/// Byte length of a serialized credential response
/// (evaluated element, masked response, and second key-exchange flight).
pub const LOGIN_RESPONSE_LEN: usize = 320;

/// Byte length of the final key-exchange confirmation message
/// (the client authentication tag).
pub const LOGIN_FINAL_LEN: usize = 64;

/// Byte length of the session key established by a successful login.
pub const SESSION_KEY_LEN: usize = 64;

/// Byte length of the nonce that the extended-nonce authenticated cipher
/// requires.
pub const NONCE_LEN: usize = 24;

/// Byte length of the symmetric key that the session key is normalized to
/// before token decryption.
pub const DERIVED_KEY_LEN: usize = 32;

} // verus!
