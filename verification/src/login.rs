//! The login state machine: authenticating with an enrolled password and
//! deriving a mutually authenticated session key.
//!
//! `login_start` blinds the password and opens the key exchange with a
//! fresh ephemeral keypair; the server answers with a credential response,
//! which `login_finish` unblinds, stretches, and checks against the
//! key-exchange transcript. Only when that verification passes does a
//! session key exist; a wrong password surfaces as a single authentication
//! failure, never as a crash and never as partial key material.

use vstd::prelude::*;
use crate::errors::ClientError;
use crate::suite;

verus! {

/// Local secret state between login start and finish: the blinding scalar,
/// the credential request, and the key-exchange ephemerals, in serialized
/// form. A value of this type always holds exactly
/// [`crate::LOGIN_STATE_LEN`] bytes.
#[derive(Debug)]
pub struct ClientLoginState {
    bytes: Vec<u8>,
}

/// The serialized form of a login state parses back exactly when it has
/// the fixed state length; parsing returns the same bytes.
pub open spec fn parse_login_state(bytes: Seq<u8>) -> Option<Seq<u8>> {
    if bytes.len() == crate::LOGIN_STATE_LEN {
        Some(bytes)
    } else {
        None
    }
}

impl View for ClientLoginState {
    type V = Seq<u8>;

    closed spec fn view(&self) -> Seq<u8> {
        self.bytes@
    }
}

impl ClientLoginState {
    /// A state is well-formed when it holds exactly the fixed number of
    /// serialized bytes.
    pub open spec fn wf(&self) -> bool {
        self@.len() == crate::LOGIN_STATE_LEN
    }

    /// The wire form of the state: exactly its bytes.
    pub fn serialize(&self) -> (r: Vec<u8>)
        ensures
            r@ == self@,
    {
        self.bytes.clone()
    }

    /// Parses a serialized state, accepting exactly the fixed length and
    /// rejecting anything else as a deserialization failure.
    pub fn deserialize(bytes: Vec<u8>) -> (r: Result<Self, ClientError>)
        ensures
            parse_login_state(bytes@) matches Some(s) ==> (r matches Ok(st) && st@ == s
                && st.wf()),
            parse_login_state(bytes@) is None ==> r == Err::<Self, ClientError>(
                ClientError::Deserialization,
            ),
    {
        if bytes.len() == crate::LOGIN_STATE_LEN {
            Ok(ClientLoginState { bytes })
        } else {
            Err(ClientError::Deserialization)
        }
    }

    /// Consumes this state — a login state is fed to `finish` exactly
    /// once; a second attempt requires a fresh start — unblinds the
    /// server's OPRF evaluation, stretches it, recovers the enrollment
    /// envelope, completes the triple Diffie-Hellman exchange and verifies
    /// the server's proof against the transcript. A response of the wrong
    /// length is rejected as a deserialization failure before any
    /// cryptography runs; for a response of the right length the outcome
    /// — whether a session key is owed, its value, and the failure kind
    /// otherwise — is exactly [`suite::login_result`] of the inputs, so
    /// two calls on byte-identical inputs return identical results. A
    /// wrong password or tampered response surfaces as the single
    /// authentication failure; a session key is returned only on success,
    /// and then always with the full fixed length.
    pub fn finish(self, password: String, server_start: Vec<u8>) -> (r: Result<
        LoginFinishResult,
        ClientError,
    >)
        requires
            self.wf(),
        ensures
            server_start@.len() != crate::LOGIN_RESPONSE_LEN ==> (r matches Err(e) && e
                == ClientError::Deserialization),
            server_start@.len() == crate::LOGIN_RESPONSE_LEN ==> match r {
                Ok(res) => res.message@.len() == crate::LOGIN_FINAL_LEN && res.session_key@.len()
                    == crate::SESSION_KEY_LEN && (suite::login_result(
                    password@,
                    self@,
                    server_start@,
                ) matches Ok(q) && q == (res.message@, res.session_key@)),
                Err(e) => (suite::login_result(password@, self@, server_start@) matches Err(k)
                    && k == e),
            },
            r matches Err(e) ==> (e is Deserialization || e is Protocol || e is Authentication),
    {
        if server_start.len() != crate::LOGIN_RESPONSE_LEN {
            return Err(ClientError::Deserialization);
        }
        match suite::login_finish_raw(
            password.as_str(),
            self.bytes.as_slice(),
            server_start.as_slice(),
        ) {
            Ok(p) => Ok(LoginFinishResult { message: p.0, session_key: p.1 }),
            Err(e) => Err(e),
        }
    }
}

/// Round trip: a well-formed login state, serialized, parses back to the
/// very same state.
pub proof fn lemma_login_state_round_trip(st: ClientLoginState)
    requires
        st.wf(),
    ensures
        parse_login_state(st@) == Some(st@),
{
}

/// What `login_start` hands back: the secret local state to keep until the
/// server answers, and the credential request message to send.
#[derive(Debug)]
pub struct LoginStartResult {
    pub state: Vec<u8>,
    pub message: Vec<u8>,
}

impl LoginStartResult {
    /// The serialized local state (fixed length, secret).
    pub fn state(&self) -> (r: Vec<u8>)
        ensures
            r@ == self.state@,
    {
        self.state.clone()
    }

    /// The serialized credential request (fixed length, safe to send in
    /// the clear).
    pub fn message(&self) -> (r: Vec<u8>)
        ensures
            r@ == self.message@,
    {
        self.message.clone()
    }
}

/// What a successful `login_finish` hands back: the confirmation message
/// owed to the server, and the established session key.
#[derive(Debug)]
pub struct LoginFinishResult {
    pub message: Vec<u8>,
    pub session_key: Vec<u8>,
}

impl LoginFinishResult {
    /// The final key-exchange confirmation message (fixed length).
    pub fn message(&self) -> (r: Vec<u8>)
        ensures
            r@ == self.message@,
    {
        self.message.clone()
    }

    /// The session key established by the authenticated exchange (fixed
    /// length, secret).
    pub fn session_key(&self) -> (r: Vec<u8>)
        ensures
            r@ == self.session_key@,
    {
        self.session_key.clone()
    }
}

/// Starts a login: blinds the password with a fresh random blinding factor,
/// draws an ephemeral key-exchange keypair, and returns the local state
/// together with the outbound credential request. Fails only on an internal
/// cryptographic precondition violation, which is surfaced as a typed
/// error, never as a crash and never as the authentication kind, which
/// belongs to the finish step alone.
pub fn login_start(password: String) -> (r: Result<LoginStartResult, ClientError>)
    ensures
        r matches Ok(res) ==> res.state@.len() == crate::LOGIN_STATE_LEN
            && res.message@.len() == crate::LOGIN_REQUEST_LEN,
        r matches Err(e) ==> (e is Deserialization || e is Protocol),
{
    match suite::login_start_raw(password.as_str()) {
        Ok(p) => Ok(LoginStartResult { state: p.0, message: p.1 }),
        Err(e) => Err(e),
    }
}

/// Finishes a login: validates and parses the stored local state and the
/// server's credential response, unblinds the OPRF evaluation, stretches
/// it, recovers the enrollment envelope, completes the triple
/// Diffie-Hellman exchange and verifies the server's proof against the
/// transcript. A state or response of the wrong length is rejected as a
/// deserialization failure before any cryptography runs; for inputs of
/// the right lengths the outcome — whether a session key is owed, its
/// value, and the failure kind otherwise — is exactly
/// [`suite::login_result`] of the inputs, so two calls on byte-identical
/// inputs return identical results. A wrong password or tampered response
/// surfaces as the single authentication failure; a session key is
/// returned only on success, and then always with the full fixed length.
pub fn login_finish(password: String, client_start: Vec<u8>, server_start: Vec<u8>) -> (r: Result<
    LoginFinishResult,
    ClientError,
>)
    ensures
        client_start@.len() != crate::LOGIN_STATE_LEN ==> (r matches Err(e) && e
            == ClientError::Deserialization),
        client_start@.len() == crate::LOGIN_STATE_LEN && server_start@.len()
            != crate::LOGIN_RESPONSE_LEN ==> (r matches Err(e) && e
            == ClientError::Deserialization),
        client_start@.len() == crate::LOGIN_STATE_LEN && server_start@.len()
            == crate::LOGIN_RESPONSE_LEN ==> match r {
            Ok(res) => res.message@.len() == crate::LOGIN_FINAL_LEN && res.session_key@.len()
                == crate::SESSION_KEY_LEN && (suite::login_result(
                password@,
                client_start@,
                server_start@,
            ) matches Ok(q) && q == (res.message@, res.session_key@)),
            Err(e) => (suite::login_result(password@, client_start@, server_start@) matches Err(k)
                && k == e),
        },
        r matches Ok(res) ==> client_start@.len() == crate::LOGIN_STATE_LEN
            && server_start@.len() == crate::LOGIN_RESPONSE_LEN && res.message@.len()
            == crate::LOGIN_FINAL_LEN && res.session_key@.len() == crate::SESSION_KEY_LEN,
        r matches Err(e) ==> (e is Deserialization || e is Protocol || e is Authentication),
{
    let state = match ClientLoginState::deserialize(client_start) {
        Ok(st) => st,
        Err(e) => {
            return Err(e);
        },
    };
    state.finish(password, server_start)
}

} // verus!
