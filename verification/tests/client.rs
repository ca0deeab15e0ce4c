//! End-to-end exercises of the protocol client against a conforming
//! in-process server, plus direct checks of the token decryption step.

use chacha20poly1305::aead::Aead;
use chacha20poly1305::KeyInit;
use opaque_client::login::ClientLoginState;
use opaque_client::registration::ClientRegistrationState;
use opaque_client::suite::Suite;
use opaque_client::{
    decrypt_token, login_finish, login_start, registration_finish, registration_start, ClientError,
};

const USER_ID: &[u8] = b"user";

fn enroll(password: &str, setup: &opaque_ke::ServerSetup<Suite>) -> Vec<u8> {
    let start = registration_start(password.to_string()).unwrap();
    let request =
        opaque_ke::RegistrationRequest::<Suite>::deserialize(&start.message()).unwrap();
    let response = opaque_ke::ServerRegistration::<Suite>::start(setup, request, USER_ID)
        .unwrap()
        .message;
    let upload = registration_finish(
        password.to_string(),
        start.state(),
        response.serialize().to_vec(),
    )
    .unwrap();
    let upload = opaque_ke::RegistrationUpload::<Suite>::deserialize(&upload).unwrap();
    opaque_ke::ServerRegistration::finish(upload).serialize().to_vec()
}

#[derive(Debug)]
struct LoginOutcome {
    client_session_key: Vec<u8>,
    server_session_key: Vec<u8>,
}

fn run_login(
    password: &str,
    setup: &opaque_ke::ServerSetup<Suite>,
    record: &[u8],
) -> Result<LoginOutcome, ClientError> {
    let mut rng = rand::rngs::OsRng;
    let start = login_start(password.to_string()).unwrap();
    let request = opaque_ke::CredentialRequest::<Suite>::deserialize(&start.message()).unwrap();
    let record = opaque_ke::ServerRegistration::<Suite>::deserialize(record).unwrap();
    let server_start = opaque_ke::ServerLogin::start(
        &mut rng,
        setup,
        Some(record),
        request,
        USER_ID,
        opaque_ke::ServerLoginStartParameters::default(),
    )
    .unwrap();
    let finish = login_finish(
        password.to_string(),
        start.state(),
        server_start.message.serialize().to_vec(),
    )?;
    let confirmation =
        opaque_ke::CredentialFinalization::<Suite>::deserialize(&finish.message()).unwrap();
    let server_finish = server_start.state.finish(confirmation).unwrap();
    Ok(LoginOutcome {
        client_session_key: finish.session_key(),
        server_session_key: server_finish.session_key.to_vec(),
    })
}

fn derive_key(session_key: &[u8]) -> Vec<u8> {
    let mut hasher = <blake2::Blake2bVar as blake2::digest::VariableOutput>::new(32).unwrap();
    blake2::digest::Update::update(&mut hasher, session_key);
    let mut key = [0u8; 32];
    blake2::digest::VariableOutput::finalize_variable(hasher, &mut key).unwrap();
    key.to_vec()
}

fn encrypt_token(session_key: &[u8], nonce: &[u8], plaintext: &[u8]) -> Vec<u8> {
    let key = derive_key(session_key);
    let cipher =
        chacha20poly1305::XChaCha20Poly1305::new(chacha20poly1305::Key::from_slice(&key));
    cipher
        .encrypt(chacha20poly1305::XNonce::from_slice(nonce), plaintext)
        .unwrap()
}

#[test]
fn registration_state_round_trip() {
    let bytes = vec![7u8; 64];
    let state = ClientRegistrationState::deserialize(bytes.clone()).unwrap();
    assert_eq!(state.serialize(), bytes);
}

#[test]
fn registration_state_rejects_wrong_length() {
    assert_eq!(
        ClientRegistrationState::deserialize(vec![7u8; 63]).unwrap_err(),
        ClientError::Deserialization
    );
    assert_eq!(
        ClientRegistrationState::deserialize(Vec::new()).unwrap_err(),
        ClientError::Deserialization
    );
}

#[test]
fn login_state_round_trip() {
    let bytes = vec![9u8; 192];
    let state = ClientLoginState::deserialize(bytes.clone()).unwrap();
    assert_eq!(state.serialize(), bytes);
}

#[test]
fn login_state_rejects_wrong_length() {
    assert_eq!(
        ClientLoginState::deserialize(vec![9u8; 191]).unwrap_err(),
        ClientError::Deserialization
    );
}

#[test]
fn registration_start_produces_fixed_length_messages() {
    let start = registration_start("hunter2".to_string()).unwrap();
    assert_eq!(start.state().len(), 64);
    assert_eq!(start.message().len(), 32);
}

#[test]
fn login_start_produces_fixed_length_messages() {
    let start = login_start("hunter2".to_string()).unwrap();
    assert_eq!(start.state().len(), 192);
    assert_eq!(start.message().len(), 96);
}

#[test]
fn enrollment_succeeds_against_conforming_server() {
    let mut rng = rand::rngs::OsRng;
    let setup = opaque_ke::ServerSetup::<Suite>::new(&mut rng);
    let record = enroll("correct horse battery staple", &setup);
    assert!(!record.is_empty());
}

#[test]
fn login_with_registered_password_yields_shared_session_key() {
    let mut rng = rand::rngs::OsRng;
    let setup = opaque_ke::ServerSetup::<Suite>::new(&mut rng);
    let record = enroll("pa55word", &setup);
    let outcome = run_login("pa55word", &setup, &record).unwrap();
    assert_eq!(outcome.client_session_key.len(), 64);
    assert!(outcome.client_session_key.len() >= 32);
    assert_eq!(outcome.client_session_key, outcome.server_session_key);
}

#[test]
fn independent_logins_yield_distinct_session_keys() {
    let mut rng = rand::rngs::OsRng;
    let setup = opaque_ke::ServerSetup::<Suite>::new(&mut rng);
    let record = enroll("pa55word", &setup);
    let first = run_login("pa55word", &setup, &record).unwrap();
    let second = run_login("pa55word", &setup, &record).unwrap();
    assert_ne!(first.client_session_key, second.client_session_key);
}

#[test]
fn login_with_wrong_password_fails_with_authentication_error() {
    let mut rng = rand::rngs::OsRng;
    let setup = opaque_ke::ServerSetup::<Suite>::new(&mut rng);
    let record = enroll("right password", &setup);
    let err = run_login("wrong password", &setup, &record).unwrap_err();
    assert_eq!(err, ClientError::Authentication);
}

#[test]
fn login_with_tampered_response_fails_with_authentication_error() {
    let mut rng = rand::rngs::OsRng;
    let setup = opaque_ke::ServerSetup::<Suite>::new(&mut rng);
    let record = enroll("pa55word", &setup);
    let record = opaque_ke::ServerRegistration::<Suite>::deserialize(&record).unwrap();
    let start = login_start("pa55word".to_string()).unwrap();
    let request = opaque_ke::CredentialRequest::<Suite>::deserialize(&start.message()).unwrap();
    let server_start = opaque_ke::ServerLogin::start(
        &mut rng,
        &setup,
        Some(record),
        request,
        USER_ID,
        opaque_ke::ServerLoginStartParameters::default(),
    )
    .unwrap();
    let mut response = server_start.message.serialize().to_vec();
    let last = response.len() - 1;
    response[last] ^= 0x01;
    let err = login_finish("pa55word".to_string(), start.state(), response).unwrap_err();
    assert_eq!(err, ClientError::Authentication);
}

#[test]
fn registration_finish_rejects_truncated_inputs() {
    let start = registration_start("pw".to_string()).unwrap();
    let mut state = start.state();
    state.truncate(10);
    assert_eq!(
        registration_finish("pw".to_string(), state, vec![0u8; 64]).unwrap_err(),
        ClientError::Deserialization
    );
    assert_eq!(
        registration_finish("pw".to_string(), start.state(), vec![0u8; 10]).unwrap_err(),
        ClientError::Deserialization
    );
}

#[test]
fn registration_finish_rejects_identity_group_element() {
    let start = registration_start("pw".to_string()).unwrap();
    let err = registration_finish("pw".to_string(), start.state(), vec![0u8; 64]).unwrap_err();
    assert_eq!(err, ClientError::Protocol);
}

#[test]
fn login_finish_rejects_truncated_inputs() {
    let start = login_start("pw".to_string()).unwrap();
    let mut state = start.state();
    state.truncate(5);
    assert_eq!(
        login_finish("pw".to_string(), state, vec![0u8; 320]).unwrap_err(),
        ClientError::Deserialization
    );
    assert_eq!(
        login_finish("pw".to_string(), start.state(), vec![0u8; 319]).unwrap_err(),
        ClientError::Deserialization
    );
}

#[test]
fn finish_calls_survive_randomly_corrupted_bytes() {
    let reg = registration_start("pw".to_string()).unwrap();
    let login = login_start("pw".to_string()).unwrap();
    let mut x: u32 = 0x1234_5678;
    for len in [0usize, 1, 31, 32, 63, 64, 96, 191, 192, 319, 320, 321, 1000] {
        let mut junk = Vec::with_capacity(len);
        for _ in 0..len {
            x = x.wrapping_mul(1_664_525).wrapping_add(1_013_904_223);
            junk.push((x >> 24) as u8);
        }
        if len >= 32 {
            // A leading field whose top byte is 0xff is never a canonical
            // scalar or group element encoding, so the parse always fails.
            junk[31] = 0xff;
        }
        assert!(registration_finish("pw".to_string(), reg.state(), junk.clone()).is_err());
        assert!(login_finish("pw".to_string(), login.state(), junk.clone()).is_err());
        assert!(registration_finish("pw".to_string(), junk.clone(), vec![0u8; 64]).is_err());
        assert!(login_finish("pw".to_string(), junk, vec![0u8; 320]).is_err());
    }
}

#[test]
fn decrypt_token_recovers_plaintext() {
    let session_key = vec![0x42u8; 64];
    let nonce = vec![5u8; 24];
    let ciphertext = encrypt_token(&session_key, &nonce, b"user-42");
    let token = decrypt_token(ciphertext, session_key, nonce).unwrap();
    assert_eq!(token, "user-42");
}

#[test]
fn decrypt_token_rejects_any_flipped_ciphertext_bit() {
    let session_key = vec![0x42u8; 64];
    let nonce = vec![5u8; 24];
    let ciphertext = encrypt_token(&session_key, &nonce, b"user-42");
    for i in 0..ciphertext.len() {
        for bit in 0..8 {
            let mut tampered = ciphertext.clone();
            tampered[i] ^= 1 << bit;
            let err = decrypt_token(tampered, session_key.clone(), nonce.clone()).unwrap_err();
            assert_eq!(err, ClientError::Decryption);
        }
    }
}

#[test]
fn decrypt_token_rejects_flipped_nonce_bit_and_wrong_key() {
    let session_key = vec![0x42u8; 64];
    let nonce = vec![5u8; 24];
    let ciphertext = encrypt_token(&session_key, &nonce, b"user-42");
    let mut bad_nonce = nonce.clone();
    bad_nonce[0] ^= 0x80;
    assert_eq!(
        decrypt_token(ciphertext.clone(), session_key.clone(), bad_nonce).unwrap_err(),
        ClientError::Decryption
    );
    let other_key = vec![0x43u8; 64];
    assert_eq!(
        decrypt_token(ciphertext, other_key, nonce).unwrap_err(),
        ClientError::Decryption
    );
}

#[test]
fn decrypt_token_rejects_wrong_nonce_length() {
    let session_key = vec![0x42u8; 64];
    let err = decrypt_token(vec![1u8; 40], session_key, vec![5u8; 12]).unwrap_err();
    assert_eq!(err, ClientError::Deserialization);
}

#[test]
fn decrypt_token_rejects_non_utf8_plaintext() {
    let session_key = vec![0x42u8; 64];
    let nonce = vec![6u8; 24];
    let ciphertext = encrypt_token(&session_key, &nonce, &[0xff, 0xfe, 0xfd]);
    let err = decrypt_token(ciphertext, session_key, nonce).unwrap_err();
    assert_eq!(err, ClientError::Encoding);
}

#[test]
fn typed_states_complete_both_flows() {
    let mut rng = rand::rngs::OsRng;
    let setup = opaque_ke::ServerSetup::<Suite>::new(&mut rng);
    let start = registration_start("pw9".to_string()).unwrap();
    let request = opaque_ke::RegistrationRequest::<Suite>::deserialize(&start.message()).unwrap();
    let response = opaque_ke::ServerRegistration::<Suite>::start(&setup, request, USER_ID)
        .unwrap()
        .message;
    let state = ClientRegistrationState::deserialize(start.state()).unwrap();
    let upload = state.finish("pw9".to_string(), response.serialize().to_vec()).unwrap();
    assert_eq!(upload.len(), 192);
    let record = opaque_ke::ServerRegistration::finish(
        opaque_ke::RegistrationUpload::<Suite>::deserialize(&upload).unwrap(),
    );
    let login = login_start("pw9".to_string()).unwrap();
    let request = opaque_ke::CredentialRequest::<Suite>::deserialize(&login.message()).unwrap();
    let server_start = opaque_ke::ServerLogin::start(
        &mut rng,
        &setup,
        Some(record),
        request,
        USER_ID,
        opaque_ke::ServerLoginStartParameters::default(),
    )
    .unwrap();
    let state = ClientLoginState::deserialize(login.state()).unwrap();
    let finish = state
        .finish("pw9".to_string(), server_start.message.serialize().to_vec())
        .unwrap();
    assert_eq!(finish.session_key().len(), 64);
    assert_eq!(finish.message().len(), 64);
}

#[test]
fn typed_states_reject_short_responses() {
    let start = registration_start("pw".to_string()).unwrap();
    let state = ClientRegistrationState::deserialize(start.state()).unwrap();
    assert_eq!(
        state.finish("pw".to_string(), vec![0u8; 63]).unwrap_err(),
        ClientError::Deserialization
    );
    let login = login_start("pw".to_string()).unwrap();
    let state = ClientLoginState::deserialize(login.state()).unwrap();
    assert_eq!(
        state.finish("pw".to_string(), vec![0u8; 3]).unwrap_err(),
        ClientError::Deserialization
    );
}

#[test]
fn login_finish_is_deterministic_on_identical_inputs() {
    let mut rng = rand::rngs::OsRng;
    let setup = opaque_ke::ServerSetup::<Suite>::new(&mut rng);
    let record = enroll("pa55word", &setup);
    let record = opaque_ke::ServerRegistration::<Suite>::deserialize(&record).unwrap();
    let start = login_start("pa55word".to_string()).unwrap();
    let request = opaque_ke::CredentialRequest::<Suite>::deserialize(&start.message()).unwrap();
    let server_start = opaque_ke::ServerLogin::start(
        &mut rng,
        &setup,
        Some(record),
        request,
        USER_ID,
        opaque_ke::ServerLoginStartParameters::default(),
    )
    .unwrap();
    let response = server_start.message.serialize().to_vec();
    let first =
        login_finish("pa55word".to_string(), start.state(), response.clone()).unwrap();
    let second = login_finish("pa55word".to_string(), start.state(), response).unwrap();
    assert_eq!(first.message(), second.message());
    assert_eq!(first.session_key(), second.session_key());
}

#[test]
fn registration_finish_acceptance_is_deterministic() {
    let mut rng = rand::rngs::OsRng;
    let setup = opaque_ke::ServerSetup::<Suite>::new(&mut rng);
    let start = registration_start("pw".to_string()).unwrap();
    let request =
        opaque_ke::RegistrationRequest::<Suite>::deserialize(&start.message()).unwrap();
    let response = opaque_ke::ServerRegistration::<Suite>::start(&setup, request, USER_ID)
        .unwrap()
        .message
        .serialize()
        .to_vec();
    let first = registration_finish("pw".to_string(), start.state(), response.clone());
    let second = registration_finish("pw".to_string(), start.state(), response);
    assert!(first.is_ok() && second.is_ok());
    let bad = vec![0u8; 64];
    let e1 = registration_finish("pw".to_string(), start.state(), bad.clone()).unwrap_err();
    let e2 = registration_finish("pw".to_string(), start.state(), bad).unwrap_err();
    assert_eq!(e1, e2);
}

#[test]
fn error_messages_are_generic_per_taxonomy() {
    assert_eq!(ClientError::Authentication.message(), "authentication failed");
    assert_eq!(ClientError::Deserialization.message(), "invalid response");
    assert_eq!(ClientError::Protocol.message(), "invalid response");
    assert_eq!(ClientError::Decryption.message(), "decryption failed");
    assert_eq!(ClientError::Encoding.message(), "invalid UTF-8");
}
