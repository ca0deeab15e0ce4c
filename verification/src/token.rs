//! Session-key-derived decryption of a server-issued encrypted token.
//!
//! The raw session key is normalized to the fixed 32-byte cipher key with
//! a variable-output hash (keyed by the session key alone), the ciphertext
//! is opened under that key and the supplied extended nonce with an
//! authenticated cipher, and the plaintext is interpreted as UTF-8 text.
//! Every failure is typed: a nonce of the wrong length is a
//! deserialization failure, a tag mismatch is a decryption failure, and
//! non-UTF-8 plaintext is an encoding failure — never a crash, never
//! partial plaintext.

use vstd::prelude::*;
use crate::errors::ClientError;

verus! {

/// The 32-byte digest that the variable-output Blake2b hash assigns to an
/// input; it depends on the input bytes alone.
pub uninterp spec fn key_digest(input: Seq<u8>) -> Seq<u8>;

/// What authenticated decryption under the extended-nonce cipher yields
/// for a key, nonce and ciphertext: the plaintext when the tag verifies,
/// nothing otherwise. It depends on the three arguments alone.
pub uninterp spec fn aead_open(key: Seq<u8>, nonce: Seq<u8>, ciphertext: Seq<u8>) -> Option<
    Seq<u8>,
>;

/// What decoding a byte sequence as UTF-8 yields: the text when the bytes
/// are valid UTF-8, nothing otherwise.
pub uninterp spec fn utf8_decode(bytes: Seq<u8>) -> Option<Seq<char>>;

/// Relies on `blake2::Blake2bVar` with a 32-byte output: `new(32)` accepts
/// any output size between 1 and 64 bytes, and `finalize_variable` fills a
/// buffer of exactly that size, so neither call can fail here. The digest
/// is a function of the input bytes alone.
#[verifier::external_body]
fn derive_key(session_key: &[u8]) -> (r: Vec<u8>)
    ensures
        r@ == key_digest(session_key@),
        r@.len() == crate::DERIVED_KEY_LEN,
{
    let mut hasher = <blake2::Blake2bVar as blake2::digest::VariableOutput>::new(32).unwrap();
    blake2::digest::Update::update(&mut hasher, session_key);
    let mut key = [0u8; 32];
    blake2::digest::VariableOutput::finalize_variable(hasher, &mut key).unwrap();
    key.to_vec()
}

/// Relies on `chacha20poly1305::XChaCha20Poly1305`: `decrypt` returns the
/// plaintext exactly when the authentication tag verifies, and the
/// plaintext is the ciphertext minus the 16-byte tag. `Key::from_slice`
/// and `XNonce::from_slice` panic on any other slice length, so the
/// lengths are required here. The result is a function of key, nonce and
/// ciphertext alone.
#[verifier::external_body]
fn aead_open_raw(key: &[u8], nonce: &[u8], ciphertext: &[u8]) -> (r: Option<Vec<u8>>)
    requires
        key@.len() == crate::DERIVED_KEY_LEN,
        nonce@.len() == crate::NONCE_LEN,
    ensures
        r is Some <==> aead_open(key@, nonce@, ciphertext@) is Some,
        r matches Some(p) ==> aead_open(key@, nonce@, ciphertext@) == Some(p@)
            && ciphertext@.len() >= 16 && p@.len() + 16 == ciphertext@.len(),
{
    let cipher = <chacha20poly1305::XChaCha20Poly1305 as chacha20poly1305::KeyInit>::new(
        chacha20poly1305::Key::from_slice(key),
    );
    let nonce = chacha20poly1305::XNonce::from_slice(nonce);
    match chacha20poly1305::aead::Aead::decrypt(&cipher, nonce, ciphertext) {
        Ok(plaintext) => Some(plaintext),
        Err(_) => None,
    }
}

/// Relies on `std::str::from_utf8`: it succeeds exactly on valid UTF-8,
/// and the text it returns is a function of the bytes alone.
#[verifier::external_body]
fn decode_utf8(bytes: &[u8]) -> (r: Option<String>)
    ensures
        r is Some <==> utf8_decode(bytes@) is Some,
        r matches Some(s) ==> utf8_decode(bytes@) == Some(s@),
{
    match std::str::from_utf8(bytes) {
        Ok(text) => Some(text.to_string()),
        Err(_) => None,
    }
}

/// The exact outcome of token decryption for given session key, nonce and
/// ciphertext bytes: a nonce of the wrong length is a deserialization
/// failure; a ciphertext whose tag does not verify under the normalized
/// key is a decryption failure; a plaintext that is not valid UTF-8 is an
/// encoding failure; otherwise the decoded text.
pub open spec fn token_plaintext(session_key: Seq<u8>, nonce: Seq<u8>, ciphertext: Seq<u8>) -> Result<
    Seq<char>,
    ClientError,
> {
    if nonce.len() != crate::NONCE_LEN {
        Err(ClientError::Deserialization)
    } else {
        match aead_open(key_digest(session_key), nonce, ciphertext) {
            Option::None => Err(ClientError::Decryption),
            Option::Some(plaintext) => match utf8_decode(plaintext) {
                Option::None => Err(ClientError::Encoding),
                Option::Some(text) => Ok(text),
            },
        }
    }
}

/// Decrypts a server-issued token under the session key established by a
/// successful login. The session key is first normalized to the fixed
/// cipher key length with the variable-output hash; the ciphertext is then
/// opened under the supplied nonce, failing closed on any tag mismatch;
/// the plaintext is returned as text exactly when it is valid UTF-8.
pub fn decrypt_token(encrypted_token: Vec<u8>, session_key: Vec<u8>, nonce: Vec<u8>) -> (r: Result<
    String,
    ClientError,
>)
    ensures
        r matches Ok(s) ==> token_plaintext(session_key@, nonce@, encrypted_token@)
            == Ok::<Seq<char>, ClientError>(s@),
        r matches Err(e) ==> token_plaintext(session_key@, nonce@, encrypted_token@) == Err::<
            Seq<char>,
            ClientError,
        >(e),
{
    if nonce.len() != crate::NONCE_LEN {
        return Err(ClientError::Deserialization);
    }
    let key = derive_key(session_key.as_slice());
    let plaintext = match aead_open_raw(key.as_slice(), nonce.as_slice(), encrypted_token.as_slice()) {
        Some(p) => p,
        None => {
            return Err(ClientError::Decryption);
        },
    };
    match decode_utf8(plaintext.as_slice()) {
        Some(text) => Ok(text),
        None => Err(ClientError::Encoding),
    }
}

} // verus!
