//! From an authenticator's keyed-HMAC answer to a keyslot secret.
//!
//! The challenge sent to the authenticator is the salt, byte for byte. The
//! answer is brought to exactly [`SECRET_LEN`] bytes: a longer answer is cut
//! after its first [`SECRET_LEN`] bytes, a shorter one is filled up with zero
//! bytes.
use vstd::prelude::*;
use vstd::slice::slice_to_vec;
use crate::authenticator::{AuthenticatorHandle, Credential};
use crate::error::{Fido2LuksError, Fido2LuksResult};

verus! {

/// Length in bytes of every derived secret.
pub const SECRET_LEN: usize = 32;

/// The challenge that stands for `salt`.
pub open spec fn challenge_of(salt: Seq<u8>) -> Seq<u8> {
    salt
}

/// `raw` cut or zero-filled to [`SECRET_LEN`] bytes.
pub open spec fn normalize(raw: Seq<u8>) -> Seq<u8> {
    Seq::new(
        SECRET_LEN as nat,
        |i: int|
            if i < raw.len() {
                raw[i]
            } else {
                0u8
            },
    )
}

/// `n` zero bytes.
pub open spec fn zeros(n: nat) -> Seq<u8> {
    Seq::new(n, |i: int| 0u8)
}

/// Overwrites `bytes` with zero bytes.
pub fn wipe(bytes: &mut Vec<u8>)
    ensures
        final(bytes)@ == zeros(old(bytes)@.len()),
{
    let n: usize = bytes.len();
    let mut i: usize = 0;
    while i < n
        invariant
            n == bytes@.len(),
            n == old(bytes)@.len(),
            i <= n,
            forall|j: int| 0 <= j < i ==> bytes@[j] == 0u8,
        decreases n - i,
    {
        bytes[i] = 0u8;
        i += 1;
    }
    assert(bytes@ =~= zeros(old(bytes)@.len()));
}

/// Why an authenticator gave no keyed-HMAC answer.
#[derive(Clone, Copy, Debug, PartialEq, Eq, Structural)]
pub enum HmacFault {
    /// The device could not be reached or answered garbage.
    Device,
    /// The device does not hold the credential it was asked about.
    WrongCredential,
}

impl HmacFault {
    /// The error that a derivation ends with after this fault.
    pub open spec fn spec_error(self) -> Fido2LuksError {
        match self {
            HmacFault::Device => Fido2LuksError::DeviceError,
            HmacFault::WrongCredential => Fido2LuksError::CredentialMismatch,
        }
    }

    /// The error that a derivation ends with after this fault.
    #[verifier::when_used_as_spec(spec_error)]
    pub fn error(self) -> (e: Fido2LuksError)
        ensures
            e == self.spec_error(),
    {
        match self {
            HmacFault::Device => Fido2LuksError::DeviceError,
            HmacFault::WrongCredential => Fido2LuksError::CredentialMismatch,
        }
    }
}

/// A keyslot secret. It lives in memory only; call [`DerivedSecret::clear`]
/// once it has been used.
#[derive(Debug, PartialEq, Eq)]
pub struct DerivedSecret {
    bytes: [u8; 32],
}

impl View for DerivedSecret {
    type V = Seq<u8>;

    closed spec fn view(&self) -> Seq<u8> {
        self.bytes@
    }
}

impl DerivedSecret {
    /// Every secret has the same length.
    pub broadcast proof fn lemma_len(&self)
        ensures
            #[trigger] self@.len() == SECRET_LEN,
    {
    }

    /// Takes the secret from an authenticator's raw answer and wipes the
    /// answer.
    pub fn from_hmac_output(raw: &mut Vec<u8>) -> (secret: DerivedSecret)
        ensures
            secret@ == normalize(old(raw)@),
            final(raw)@ == zeros(old(raw)@.len()),
    {
        let mut bytes = [0u8; 32];
        let n: usize = raw.len();
        let mut i: usize = 0;
        while i < n && i < SECRET_LEN
            invariant
                n == raw.len(),
                raw@ == old(raw)@,
                i <= n,
                i <= SECRET_LEN,
                forall|j: int| 0 <= j < i ==> bytes@[j] == raw@[j],
                forall|j: int| i <= j < 32 ==> bytes@[j] == 0u8,
            decreases n - i,
        {
            bytes[i] = raw[i];
            i += 1;
        }
        assert(bytes@ =~= normalize(raw@));
        wipe(raw);
        DerivedSecret { bytes }
    }

    /// The secret's bytes.
    pub fn as_bytes(&self) -> (b: &[u8; 32])
        ensures
            b@ == self@,
    {
        &self.bytes
    }

    /// Overwrites the secret with zero bytes.
    pub fn clear(&mut self)
        ensures
            final(self)@ == zeros(SECRET_LEN as nat),
    {
        let mut i: usize = 0;
        while i < SECRET_LEN
            invariant
                i <= SECRET_LEN,
                forall|j: int| 0 <= j < i ==> self.bytes@[j] == 0u8,
            decreases SECRET_LEN - i,
        {
            self.bytes[i] = 0u8;
            i += 1;
        }
        assert(self.bytes@ =~= zeros(SECRET_LEN as nat));
    }
}

/// What the caller is to ask of an authenticator: the keyed-HMAC of
/// `challenge` under the credential `credential_id`, on the device `handle`.
#[derive(Clone, Debug, PartialEq, Eq)]
pub struct HmacRequest {
    pub handle: AuthenticatorHandle,
    pub credential_id: Vec<u8>,
    pub challenge: Vec<u8>,
}

/// The challenge for `salt`, as bytes to send.
pub fn challenge(salt: &[u8]) -> (c: Vec<u8>)
    ensures
        c@ == challenge_of(salt@),
{
    slice_to_vec(salt)
}

/// The request that starts a derivation.
pub fn hmac_request(handle: AuthenticatorHandle, credential: &Credential, salt: &[u8]) -> (request:
    HmacRequest)
    ensures
        request.handle == handle,
        request.credential_id@ == credential@,
        request.challenge@ == challenge_of(salt@),
{
    HmacRequest {
        handle,
        credential_id: slice_to_vec(credential.id.as_slice()),
        challenge: challenge(salt),
    }
}

/// The outcome of a derivation, given what the authenticator answered.
pub open spec fn derive_spec(response: Result<Seq<u8>, HmacFault>) -> Result<
    Seq<u8>,
    Fido2LuksError,
> {
    match response {
        Ok(raw) => Ok(normalize(raw)),
        Err(fault) => Err(fault.spec_error()),
    }
}

/// The view of an authenticator's answer.
pub open spec fn response_view(response: Result<Vec<u8>, HmacFault>) -> Result<
    Seq<u8>,
    HmacFault,
> {
    match response {
        Ok(raw) => Ok(raw@),
        Err(fault) => Err(fault),
    }
}

/// The view of a derivation's outcome.
pub open spec fn outcome_view(outcome: Result<DerivedSecret, Fido2LuksError>) -> Result<
    Seq<u8>,
    Fido2LuksError,
> {
    match outcome {
        Ok(secret) => Ok(secret@),
        Err(e) => Err(e),
    }
}

/// Ends a derivation: an answer becomes the secret and is wiped, a fault
/// becomes the matching error.
pub fn derive(response: Result<Vec<u8>, HmacFault>) -> (outcome: Fido2LuksResult<DerivedSecret>)
    ensures
        outcome_view(outcome) == derive_spec(response_view(response)),
{
    match response {
        Ok(raw) => {
            let mut raw = raw;
            Ok(DerivedSecret::from_hmac_output(&mut raw))
        },
        Err(fault) => Err(fault.error()),
    }
}

/// The secret that the authenticator `device` yields for a credential and a
/// salt, where `device` maps a credential id and a challenge to its answer.
pub open spec fn derived(
    device: spec_fn(Seq<u8>, Seq<u8>) -> Result<Seq<u8>, HmacFault>,
    credential: Seq<u8>,
    salt: Seq<u8>,
) -> Result<Seq<u8>, Fido2LuksError> {
    derive_spec(device(credential, challenge_of(salt)))
}

/// Determinism: on one authenticator, the same credential and the same salt
/// give the same outcome, and a secret is always [`SECRET_LEN`] bytes long.
pub proof fn lemma_derivation_deterministic(
    device: spec_fn(Seq<u8>, Seq<u8>) -> Result<Seq<u8>, HmacFault>,
    credential_a: Seq<u8>,
    salt_a: Seq<u8>,
    credential_b: Seq<u8>,
    salt_b: Seq<u8>,
)
    requires
        credential_a == credential_b,
        salt_a == salt_b,
    ensures
        derived(device, credential_a, salt_a) == derived(device, credential_b, salt_b),
        derived(device, credential_a, salt_a) matches Ok(secret) ==> secret.len() == SECRET_LEN,
{
}

/// Distinct salts are sent as distinct challenges.
pub proof fn lemma_challenge_injective(salt_a: Seq<u8>, salt_b: Seq<u8>)
    requires
        salt_a != salt_b,
    ensures
        challenge_of(salt_a) != challenge_of(salt_b),
{
}

/// Two answers that differ within their first [`SECRET_LEN`] bytes give
/// different secrets.
pub proof fn lemma_normalize_separates(raw_a: Seq<u8>, raw_b: Seq<u8>, at: int)
    requires
        0 <= at < SECRET_LEN,
        at < raw_a.len(),
        at < raw_b.len(),
        raw_a[at] != raw_b[at],
    ensures
        normalize(raw_a) != normalize(raw_b),
{
    assert(normalize(raw_a)[at] == raw_a[at]);
    assert(normalize(raw_b)[at] == raw_b[at]);
}

/// An answer of exactly [`SECRET_LEN`] bytes is the secret.
pub proof fn lemma_normalize_full_length(raw: Seq<u8>)
    requires
        raw.len() == SECRET_LEN,
    ensures
        normalize(raw) == raw,
{
    assert(normalize(raw) =~= raw);
}

/// Sensitivity: where the authenticator answers two salts with
/// full-length answers that differ, the two secrets differ.
pub proof fn lemma_derivation_sensitive(
    device: spec_fn(Seq<u8>, Seq<u8>) -> Result<Seq<u8>, HmacFault>,
    credential: Seq<u8>,
    salt_a: Seq<u8>,
    salt_b: Seq<u8>,
)
    requires
        salt_a != salt_b,
        device(credential, challenge_of(salt_a)) matches Ok(raw) && raw.len() == SECRET_LEN,
        device(credential, challenge_of(salt_b)) matches Ok(raw) && raw.len() == SECRET_LEN,
        device(credential, challenge_of(salt_a)) != device(credential, challenge_of(salt_b)),
    ensures
        derived(device, credential, salt_a) != derived(device, credential, salt_b),
{
    let raw_a = device(credential, challenge_of(salt_a))->Ok_0;
    let raw_b = device(credential, challenge_of(salt_b))->Ok_0;
    lemma_normalize_full_length(raw_a);
    lemma_normalize_full_length(raw_b);
}

} // verus!
