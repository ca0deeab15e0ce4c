//! The fixed cipher suite and the trusted boundary to the `opaque_ke`
//! protocol engine.
//!
//! The suite binds the protocol to Ristretto255 for the OPRF and the key
//! exchange group, triple Diffie-Hellman for the key exchange, and Argon2
//! as the key-stretching function. Every call into `opaque_ke` goes through
//! one of the wrappers below; they take and return plain byte vectors, and
//! their contracts state what the crate's sources show. The two `start`
//! calls draw fresh randomness, so only output lengths and the failure
//! taxonomy are claimed of them; the two `finish` computations are
//! deterministic in their inputs, so their outcomes carry names
//! ([`login_result`], [`reg_failure`]) that the finishing functions'
//! contracts are stated over.

use vstd::prelude::*;
use crate::errors::ClientError;
use opaque_ke::errors::ProtocolError;

verus! {

/// The compile-time selection of the underlying primitives.
pub struct Suite;

#[verifier::external_type_specification]
#[verifier::external_body]
pub struct ExRistretto255(opaque_ke::Ristretto255);

#[verifier::external_type_specification]
#[verifier::external_body]
pub struct ExTripleDh(opaque_ke::key_exchange::tripledh::TripleDh);

#[verifier::external_type_specification]
#[verifier::external_body]
pub struct ExArgon2<'a>(argon2::Argon2<'a>);

impl opaque_ke::CipherSuite for Suite {
    type OprfCs = opaque_ke::Ristretto255;
    type KeGroup = opaque_ke::Ristretto255;
    type KeyExchange = opaque_ke::key_exchange::tripledh::TripleDh;
    type Ksf = argon2::Argon2<'static>;
}

/// What the login-finish computation yields for a password, a serialized
/// login state and a serialized credential response: the confirmation
/// message and session key when the server's transcript proof verifies, or
/// the typed failure otherwise. `opaque_ke::ClientLogin::finish` takes no
/// random source and draws none internally, and the message parsers are
/// pure, so the whole outcome — acceptance, payload and failure kind — is
/// a function of the three inputs alone.
pub uninterp spec fn login_result(password: Seq<char>, state: Seq<u8>, response: Seq<u8>) -> Result<
    (Seq<u8>, Seq<u8>),
    ClientError,
>;

/// Which failure, if any, the registration-finish computation yields for
/// a password, a serialized registration state and a serialized
/// registration response. Whether `opaque_ke::ClientRegistration::finish`
/// accepts, and which failure it reports, is decided by the pure parses,
/// the reflected-value check and the unblinding, all before the envelope
/// is sealed; only the accepted envelope's bytes depend on the randomness
/// drawn inside the call, so the failure alone is named and nothing is
/// claimed of the successful payload's contents.
pub uninterp spec fn reg_failure(password: Seq<char>, state: Seq<u8>, response: Seq<u8>) -> Option<
    ClientError,
>;

/// Relies on `opaque_ke::ClientRegistration::start` with a fresh operating
/// system RNG, and on `serialize` of the resulting state and message: the
/// serialized state is blinding scalar plus blinded element (64 bytes) and
/// the request message is one group element (32 bytes). The registration
/// flow raises no credential-validation failure (`InvalidLoginError`
/// arises only in the login finish step), so every failure is classified
/// as malformed bytes or a protocol invariant violation.
#[verifier::external_body]
pub(crate) fn reg_start_raw(password: &str) -> (r: Result<(Vec<u8>, Vec<u8>), ClientError>)
    ensures
        r matches Ok(p) ==> p.0@.len() == crate::REG_STATE_LEN
            && p.1@.len() == crate::REG_REQUEST_LEN,
        r matches Err(e) ==> (e is Deserialization || e is Protocol),
{
    let kind = |e: ProtocolError| match e {
        ProtocolError::SerializationError => ClientError::Deserialization,
        _ => ClientError::Protocol,
    };
    let mut rng = rand::rngs::OsRng;
    let res = opaque_ke::ClientRegistration::<Suite>::start(&mut rng, password.as_bytes())
        .map_err(kind)?;
    Ok((res.state.serialize().to_vec(), res.message.serialize().to_vec()))
}

/// Relies on `opaque_ke::ClientRegistration::deserialize`,
/// `opaque_ke::RegistrationResponse::deserialize`, and
/// `opaque_ke::ClientRegistration::finish` with a fresh operating system
/// RNG: the serialized upload envelope is client public key, masking key
/// and envelope (192 bytes), and acceptance or failure is [`reg_failure`]
/// of the inputs. As in [`reg_start_raw`], no credential-validation
/// failure can arise here, so every failure is classified as malformed
/// bytes or a protocol invariant violation.
#[verifier::external_body]
pub(crate) fn reg_finish_raw(password: &str, state: &[u8], response: &[u8]) -> (r: Result<
    Vec<u8>,
    ClientError,
>)
    ensures
        r matches Ok(u) ==> u@.len() == crate::REG_UPLOAD_LEN
            && reg_failure(password@, state@, response@) is None,
        r matches Err(e) ==> reg_failure(password@, state@, response@) == Some(e)
            && (e is Deserialization || e is Protocol),
{
    let kind = |e: ProtocolError| match e {
        ProtocolError::SerializationError => ClientError::Deserialization,
        _ => ClientError::Protocol,
    };
    let st = opaque_ke::ClientRegistration::<Suite>::deserialize(state).map_err(kind)?;
    let resp = opaque_ke::RegistrationResponse::<Suite>::deserialize(response).map_err(kind)?;
    let mut rng = rand::rngs::OsRng;
    let params = opaque_ke::ClientRegistrationFinishParameters::default();
    let fin = st.finish(&mut rng, password.as_bytes(), resp, params).map_err(kind)?;
    Ok(fin.message.serialize().to_vec())
}

/// Relies on `opaque_ke::ClientLogin::start` with a fresh operating system
/// RNG, and on `serialize` of the resulting state and message: the
/// serialized state is blinding scalar, credential request and
/// key-exchange ephemerals (192 bytes) and the credential request is
/// blinded element plus first key-exchange flight (96 bytes). No
/// credential validation happens at start, so every failure is classified
/// as malformed bytes or a protocol invariant violation.
#[verifier::external_body]
pub(crate) fn login_start_raw(password: &str) -> (r: Result<(Vec<u8>, Vec<u8>), ClientError>)
    ensures
        r matches Ok(p) ==> p.0@.len() == crate::LOGIN_STATE_LEN
            && p.1@.len() == crate::LOGIN_REQUEST_LEN,
        r matches Err(e) ==> (e is Deserialization || e is Protocol),
{
    let kind = |e: ProtocolError| match e {
        ProtocolError::SerializationError => ClientError::Deserialization,
        _ => ClientError::Protocol,
    };
    let mut rng = rand::rngs::OsRng;
    let res = opaque_ke::ClientLogin::<Suite>::start(&mut rng, password.as_bytes())
        .map_err(kind)?;
    Ok((res.state.serialize().to_vec(), res.message.serialize().to_vec()))
}

/// Relies on `opaque_ke::ClientLogin::deserialize`,
/// `opaque_ke::CredentialResponse::deserialize`, and
/// `opaque_ke::ClientLogin::finish`: the whole computation draws no
/// randomness, so its outcome is [`login_result`] of the inputs. On
/// success the confirmation message is the client authentication tag (64
/// bytes) and the session key is the suite hash output (64 bytes); an
/// `Ok` is returned only when the server's transcript proof verified. A
/// failed credential check (`InvalidLoginError`) is the authentication
/// failure; malformed bytes and invariant violations keep their own
/// kinds.
#[verifier::external_body]
pub(crate) fn login_finish_raw(password: &str, state: &[u8], response: &[u8]) -> (r: Result<
    (Vec<u8>, Vec<u8>),
    ClientError,
>)
    ensures
        r matches Ok(p) ==> p.0@.len() == crate::LOGIN_FINAL_LEN
            && p.1@.len() == crate::SESSION_KEY_LEN
            && (login_result(password@, state@, response@) matches Ok(q) && q == (p.0@, p.1@)),
        r matches Err(e) ==> (login_result(password@, state@, response@) matches Err(k) && k == e)
            && (e is Deserialization || e is Protocol || e is Authentication),
{
    let kind = |e: ProtocolError| match e {
        ProtocolError::SerializationError => ClientError::Deserialization,
        ProtocolError::InvalidLoginError => ClientError::Authentication,
        _ => ClientError::Protocol,
    };
    let st = opaque_ke::ClientLogin::<Suite>::deserialize(state).map_err(kind)?;
    let resp = opaque_ke::CredentialResponse::<Suite>::deserialize(response).map_err(kind)?;
    let params = opaque_ke::ClientLoginFinishParameters::default();
    let fin = st.finish(password.as_bytes(), resp, params).map_err(kind)?;
    Ok((fin.message.serialize().to_vec(), fin.session_key.to_vec()))
}

} // verus!
