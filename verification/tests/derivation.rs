use fido2luks::authenticator::{AuthenticatorHandle, Credential};
use fido2luks::error::Fido2LuksError;
use fido2luks::secret::{
    challenge, hmac_request, wipe, DerivedSecret, HmacFault, SECRET_LEN,
};

/// A stand-in for an authenticator: a fixed keyed mixing of credential and
/// challenge into 32 bytes.
fn simulated_hmac(credential_id: &[u8], challenge: &[u8]) -> Vec<u8> {
    let mut state: [u8; 32] = [0x5c; 32];
    let mut acc: u32 = 0x811c_9dc5;
    for (i, b) in credential_id.iter().chain(challenge.iter()).enumerate() {
        acc = (acc ^ u32::from(*b)).wrapping_mul(0x0100_0193);
        state[i % 32] ^= (acc >> 8) as u8;
        state[(i * 7 + 3) % 32] = state[(i * 7 + 3) % 32].wrapping_add((acc >> 16) as u8);
    }
    for i in 0..32 {
        acc = (acc ^ u32::from(state[i])).wrapping_mul(0x0100_0193);
        state[i] ^= (acc >> 24) as u8;
    }
    state.to_vec()
}

fn derive_with(credential: &Credential, salt: &[u8]) -> DerivedSecret {
    let request = hmac_request(AuthenticatorHandle { index: 0 }, credential, salt);
    let answer = simulated_hmac(&request.credential_id, &request.challenge);
    fido2luks::secret::derive(Ok(answer)).unwrap()
}

#[test]
fn secret_length_is_32() {
    assert_eq!(SECRET_LEN, 32);
    let secret = fido2luks::secret::derive(Ok(vec![1, 2, 3])).unwrap();
    assert_eq!(secret.as_bytes().len(), 32);
}

#[test]
fn challenge_is_the_salt() {
    assert_eq!(challenge(b"disk1"), b"disk1".to_vec());
    assert_eq!(challenge(b""), Vec::<u8>::new());
    let long: Vec<u8> = (0..100).collect();
    assert_eq!(challenge(&long), long);
}

#[test]
fn request_names_device_credential_and_challenge() {
    let credential = Credential { id: vec![0xab, 0x12] };
    let request = hmac_request(AuthenticatorHandle { index: 3 }, &credential, b"disk1");
    assert_eq!(request.handle, AuthenticatorHandle { index: 3 });
    assert_eq!(request.credential_id, vec![0xab, 0x12]);
    assert_eq!(request.challenge, b"disk1".to_vec());
}

#[test]
fn full_length_answer_is_the_secret() {
    let raw: Vec<u8> = (100..132).collect();
    let secret = fido2luks::secret::derive(Ok(raw.clone())).unwrap();
    assert_eq!(secret.as_bytes().to_vec(), raw);
}

#[test]
fn long_answer_is_cut_after_32_bytes() {
    let raw: Vec<u8> = (0..64).collect();
    let secret = fido2luks::secret::derive(Ok(raw)).unwrap();
    let expected: Vec<u8> = (0..32).collect();
    assert_eq!(secret.as_bytes().to_vec(), expected);
}

#[test]
fn short_answer_is_filled_with_zeros() {
    let secret = fido2luks::secret::derive(Ok(vec![7, 8, 9])).unwrap();
    let mut expected = vec![0u8; 32];
    expected[0] = 7;
    expected[1] = 8;
    expected[2] = 9;
    assert_eq!(secret.as_bytes().to_vec(), expected);
}

#[test]
fn empty_answer_gives_all_zero_secret() {
    let secret = fido2luks::secret::derive(Ok(Vec::new())).unwrap();
    assert_eq!(secret.as_bytes(), &[0u8; 32]);
}

#[test]
fn from_hmac_output_wipes_the_answer() {
    let mut raw: Vec<u8> = (1..=40).collect();
    let secret = DerivedSecret::from_hmac_output(&mut raw);
    let expected: Vec<u8> = (1..=32).collect();
    assert_eq!(secret.as_bytes().to_vec(), expected);
    assert_eq!(raw, vec![0u8; 40]);
}

#[test]
fn clear_zeroes_the_secret() {
    let mut secret = fido2luks::secret::derive(Ok(vec![0xff; 32])).unwrap();
    assert_eq!(secret.as_bytes(), &[0xffu8; 32]);
    secret.clear();
    assert_eq!(secret.as_bytes(), &[0u8; 32]);
}

#[test]
fn device_fault_is_propagated_as_device_error() {
    assert_eq!(
        fido2luks::secret::derive(Err(HmacFault::Device)),
        Err(Fido2LuksError::DeviceError)
    );
    assert_eq!(HmacFault::Device.error(), Fido2LuksError::DeviceError);
}

#[test]
fn wrong_credential_is_propagated_as_mismatch() {
    assert_eq!(
        fido2luks::secret::derive(Err(HmacFault::WrongCredential)),
        Err(Fido2LuksError::CredentialMismatch)
    );
    assert_eq!(HmacFault::WrongCredential.error(), Fido2LuksError::CredentialMismatch);
}

#[test]
fn derivation_is_deterministic() {
    let credential = Credential { id: vec![0xab, 0x12, 0xcd, 0x34] };
    let first = derive_with(&credential, b"disk1");
    let second = derive_with(&credential, b"disk1");
    assert_eq!(first, second);
    assert_eq!(first.as_bytes().len(), 32);
}

#[test]
fn distinct_salts_give_distinct_secrets() {
    let credential = Credential { id: vec![0xab, 0x12, 0xcd, 0x34] };
    let salts: [&[u8]; 6] = [b"disk1", b"disk2", b"", b"disk", b"disk11", b"DISK1"];
    let mut secrets: Vec<DerivedSecret> = Vec::new();
    for salt in salts.iter() {
        secrets.push(derive_with(&credential, salt));
    }
    for i in 0..secrets.len() {
        for j in (i + 1)..secrets.len() {
            assert_ne!(secrets[i], secrets[j]);
        }
    }
}

#[test]
fn distinct_credentials_give_distinct_secrets() {
    let a = Credential { id: vec![1, 2, 3] };
    let b = Credential { id: vec![1, 2, 4] };
    assert_ne!(derive_with(&a, b"disk1"), derive_with(&b, b"disk1"));
}

#[test]
fn wipe_zeroes_every_byte() {
    let mut bytes = vec![1u8, 2, 3, 255];
    wipe(&mut bytes);
    assert_eq!(bytes, vec![0u8; 4]);
    let mut none: Vec<u8> = Vec::new();
    wipe(&mut none);
    assert!(none.is_empty());
}
