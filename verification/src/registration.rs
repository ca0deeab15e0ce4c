//! The registration state machine: enrolling a password with the server.
//!
//! `registration_start` blinds the password through the OPRF and returns
//! the local state together with the request message; the server answers
//! with a registration response, which `registration_finish` unblinds,
//! stretches and packages into the upload envelope. The state crossing the
//! two calls travels as validated fixed-length bytes.

use vstd::prelude::*;
use crate::errors::ClientError;
use crate::suite;

verus! {

/// Local secret state between registration start and finish: the blinding
/// scalar and the blinded OPRF element, in serialized form. A value of this
/// type always holds exactly [`crate::REG_STATE_LEN`] bytes.
#[derive(Debug)]
pub struct ClientRegistrationState {
    bytes: Vec<u8>,
}

/// The serialized form of a registration state parses back exactly when it
/// has the fixed state length; parsing returns the same bytes.
pub open spec fn parse_reg_state(bytes: Seq<u8>) -> Option<Seq<u8>> {
    if bytes.len() == crate::REG_STATE_LEN {
        Some(bytes)
    } else {
        None
    }
}

impl View for ClientRegistrationState {
    type V = Seq<u8>;

    closed spec fn view(&self) -> Seq<u8> {
        self.bytes@
    }
}

impl ClientRegistrationState {
    /// A state is well-formed when it holds exactly the fixed number of
    /// serialized bytes.
    pub open spec fn wf(&self) -> bool {
        self@.len() == crate::REG_STATE_LEN
    }

    /// The wire form of the state: exactly its bytes.
    pub fn serialize(&self) -> (r: Vec<u8>)
        ensures
            r@ == self@,
    {
        self.bytes.clone()
    }

    /// Parses a serialized state, accepting exactly the fixed length and
    /// rejecting anything else as a deserialization failure.
    pub fn deserialize(bytes: Vec<u8>) -> (r: Result<Self, ClientError>)
        ensures
            parse_reg_state(bytes@) matches Some(s) ==> (r matches Ok(st) && st@ == s
                && st.wf()),
            parse_reg_state(bytes@) is None ==> r == Err::<Self, ClientError>(
                ClientError::Deserialization,
            ),
    {
        if bytes.len() == crate::REG_STATE_LEN {
            Ok(ClientRegistrationState { bytes })
        } else {
            Err(ClientError::Deserialization)
        }
    }

    /// Consumes this state — a registration state is fed to `finish`
    /// exactly once; completing a second attempt requires a fresh start —
    /// unblinds the server's OPRF evaluation, stretches it through the
    /// key-stretching function, and packages the upload envelope. A
    /// response of the wrong length is rejected as a deserialization
    /// failure before any cryptography runs; for a response of the right
    /// length, acceptance and the failure kind are exactly
    /// [`suite::reg_failure`] of the inputs — in particular, a response
    /// whose embedded group element is invalid is rejected, never
    /// accepted, and never with the authentication kind, which belongs to
    /// the login transcript alone.
    pub fn finish(self, password: String, server_start: Vec<u8>) -> (r: Result<
        Vec<u8>,
        ClientError,
    >)
        requires
            self.wf(),
        ensures
            server_start@.len() != crate::REG_RESPONSE_LEN ==> (r matches Err(e) && e
                == ClientError::Deserialization),
            server_start@.len() == crate::REG_RESPONSE_LEN ==> match r {
                Ok(upload) => upload@.len() == crate::REG_UPLOAD_LEN && suite::reg_failure(
                    password@,
                    self@,
                    server_start@,
                ) is None,
                Err(e) => suite::reg_failure(password@, self@, server_start@) == Some(e),
            },
            r matches Err(e) ==> (e is Deserialization || e is Protocol),
    {
        if server_start.len() != crate::REG_RESPONSE_LEN {
            return Err(ClientError::Deserialization);
        }
        suite::reg_finish_raw(password.as_str(), self.bytes.as_slice(), server_start.as_slice())
    }
}

/// Round trip: a well-formed registration state, serialized, parses back
/// to the very same state.
pub proof fn lemma_reg_state_round_trip(st: ClientRegistrationState)
    requires
        st.wf(),
    ensures
        parse_reg_state(st@) == Some(st@),
{
}

/// What `registration_start` hands back: the secret local state to keep
/// until the server answers, and the blinded request message to send.
#[derive(Debug)]
pub struct RegistrationStartResult {
    pub state: Vec<u8>,
    pub message: Vec<u8>,
}

impl RegistrationStartResult {
    /// The serialized local state (fixed length, secret).
    pub fn state(&self) -> (r: Vec<u8>)
        ensures
            r@ == self.state@,
    {
        self.state.clone()
    }

    /// The serialized request message (fixed length, safe to send in the
    /// clear).
    pub fn message(&self) -> (r: Vec<u8>)
        ensures
            r@ == self.message@,
    {
        self.message.clone()
    }
}

/// Starts a registration: blinds the password with a fresh random blinding
/// factor and returns the local state together with the outbound request.
/// Fails only on an internal cryptographic precondition violation, which is
/// surfaced as a typed error, never as a crash and never as the
/// authentication kind.
pub fn registration_start(password: String) -> (r: Result<RegistrationStartResult, ClientError>)
    ensures
        r matches Ok(res) ==> res.state@.len() == crate::REG_STATE_LEN
            && res.message@.len() == crate::REG_REQUEST_LEN,
        r matches Err(e) ==> (e is Deserialization || e is Protocol),
{
    match suite::reg_start_raw(password.as_str()) {
        Ok(p) => Ok(RegistrationStartResult { state: p.0, message: p.1 }),
        Err(e) => Err(e),
    }
}

/// Finishes a registration: validates and parses the stored local state
/// and the server's response, unblinds the OPRF evaluation, stretches it
/// through the key-stretching function, and packages the upload envelope.
/// A state or response of the wrong length is rejected as a
/// deserialization failure before any cryptography runs; for inputs of
/// the right lengths, acceptance and the failure kind are exactly
/// [`suite::reg_failure`] of the inputs, so two calls on byte-identical
/// inputs accept or reject alike, and a response whose embedded group
/// element is invalid is rejected — never accepted, and never with the
/// authentication kind, which belongs to the login transcript alone.
pub fn registration_finish(password: String, client_start: Vec<u8>, server_start: Vec<u8>) -> (r:
    Result<Vec<u8>, ClientError>)
    ensures
        client_start@.len() != crate::REG_STATE_LEN ==> r == Err::<Vec<u8>, ClientError>(
            ClientError::Deserialization,
        ),
        client_start@.len() == crate::REG_STATE_LEN && server_start@.len()
            != crate::REG_RESPONSE_LEN ==> r == Err::<Vec<u8>, ClientError>(
            ClientError::Deserialization,
        ),
        client_start@.len() == crate::REG_STATE_LEN && server_start@.len()
            == crate::REG_RESPONSE_LEN ==> match r {
            Ok(upload) => upload@.len() == crate::REG_UPLOAD_LEN && suite::reg_failure(
                password@,
                client_start@,
                server_start@,
            ) is None,
            Err(e) => suite::reg_failure(password@, client_start@, server_start@) == Some(e),
        },
        r matches Ok(upload) ==> client_start@.len() == crate::REG_STATE_LEN
            && server_start@.len() == crate::REG_RESPONSE_LEN && upload@.len()
            == crate::REG_UPLOAD_LEN,
        r matches Err(e) ==> (e is Deserialization || e is Protocol),
{
    let state = match ClientRegistrationState::deserialize(client_start) {
        Ok(st) => st,
        Err(e) => {
            return Err(e);
        },
    };
    state.finish(password, server_start)
}

} // verus!
