//! The enclave's ephemeral Ed25519 signing key: one-time initialization
//! from secure randomness, public-key export, and raw signing.
//!
//! The key is modelled by its 32-byte seed; the Ed25519 operations of
//! ed25519-dalek are deterministic functions of that seed (and the
//! message), named below by uninterpreted spec functions.
use base64::Engine;
use ed25519_dalek::Signer;
use vstd::prelude::*;

use crate::EnclaveError;

verus! {

/// The Ed25519 public key that ed25519-dalek derives from a 32-byte seed.
pub uninterp spec fn ed25519_pk_of(seed: Seq<u8>) -> Seq<u8>;

/// The Ed25519 signature that ed25519-dalek produces from a 32-byte seed
/// over a message; RFC 8032 signing is deterministic.
pub uninterp spec fn ed25519_sig_of(seed: Seq<u8>, message: Seq<u8>) -> Seq<u8>;

/// The standard base64 rendering (with padding) of a byte string.
pub uninterp spec fn base64_of(bytes: Seq<u8>) -> Seq<char>;

/// Relies on getrandom::getrandom: on success the buffer is filled with
/// 32 bytes from the operating system's secure randomness source.
/// Nothing is assumed of which bytes come back.
#[verifier::external_body]
fn secure_seed() -> (r: Result<[u8; 32], EnclaveError>)
    ensures
        r matches Err(e) ==> e matches EnclaveError::RandomnessUnavailable,
{
    let mut seed = [0u8; 32];
    match getrandom::getrandom(&mut seed) {
        Ok(()) => Ok(seed),
        Err(_) => Err(EnclaveError::RandomnessUnavailable),
    }
}

/// Relies on ed25519_dalek::SigningKey::from_bytes and
/// VerifyingKey::to_bytes: the 32-byte public key derived from the seed,
/// a deterministic function of the seed alone.
#[verifier::external_body]
fn ed25519_public_key(seed: &[u8; 32]) -> (pk: [u8; 32])
    ensures
        pk@ == ed25519_pk_of(seed@),
{
    let sk = ed25519_dalek::SigningKey::from_bytes(seed);
    sk.verifying_key().to_bytes()
}

/// Relies on ed25519_dalek's Signer::sign for SigningKey: the 64-byte
/// RFC 8032 signature over exactly the given message, a deterministic
/// function of the seed and the message.
#[verifier::external_body]
fn ed25519_sign(seed: &[u8; 32], message: &[u8]) -> (sig: [u8; 64])
    ensures
        sig@ == ed25519_sig_of(seed@, message@),
{
    let sk = ed25519_dalek::SigningKey::from_bytes(seed);
    sk.sign(message).to_bytes()
}

/// Relies on base64's STANDARD engine: the padded base64 rendering of the
/// bytes, a deterministic function of the bytes alone.
#[verifier::external_body]
pub(crate) fn base64_encode(bytes: &[u8]) -> (r: String)
    ensures
        r@ == base64_of(bytes@),
{
    base64::engine::general_purpose::STANDARD.encode(bytes)
}

/// Owns the enclave's ephemeral signing key. Starts uninitialized;
/// `ensure_initialized` installs a key exactly once, and export and
/// signing fail explicitly until it has.
pub struct KeyManager {
    seed: Option<[u8; 32]>,
}

impl KeyManager {
    /// Whether a signing key has been installed.
    pub closed spec fn is_initialized(&self) -> bool {
        self.seed is Some
    }

    /// The installed seed, which determines the key pair.
    pub closed spec fn seed_bytes(&self) -> Seq<u8> {
        self.seed.unwrap()@
    }

    /// The public key of the installed signing key.
    pub open spec fn spec_public_key(&self) -> Seq<u8> {
        ed25519_pk_of(self.seed_bytes())
    }

    /// A fresh, uninitialized key manager.
    pub fn new() -> (r: KeyManager)
        ensures
            !r.is_initialized(),
    {
        KeyManager { seed: None }
    }

    /// Draws a 32-byte seed from secure randomness and installs the
    /// derived signing key, exactly once: every call after the first
    /// successful one leaves the key manager unchanged and succeeds.
    /// Fails only when no key is installed yet and the randomness source
    /// cannot supply bytes; the key manager is then still uninitialized.
    pub fn ensure_initialized(&mut self) -> (r: Result<(), EnclaveError>)
        ensures
            old(self).is_initialized() ==> r is Ok && *final(self) == *old(self),
            r is Ok ==> final(self).is_initialized(),
            r matches Err(e) ==> {
                &&& e matches EnclaveError::RandomnessUnavailable
                &&& !old(self).is_initialized()
                &&& *final(self) == *old(self)
            },
    {
        if self.seed.is_some() {
            return Ok(());
        }
        match secure_seed() {
            Ok(seed) => {
                self.seed = Some(seed);
                Ok(())
            },
            Err(e) => Err(e),
        }
    }

    /// The raw 32-byte public key; fails with `UninitializedKey` if and
    /// only if no key has been installed.
    pub fn public_key(&self) -> (r: Result<[u8; 32], EnclaveError>)
        ensures
            r is Ok <==> self.is_initialized(),
            r matches Ok(pk) ==> pk@ == self.spec_public_key(),
            r matches Err(e) ==> e matches EnclaveError::UninitializedKey,
    {
        match &self.seed {
            Some(seed) => Ok(ed25519_public_key(seed)),
            None => Err(EnclaveError::UninitializedKey),
        }
    }

    /// The base64 rendering of the public key, under the same contract as
    /// `public_key`.
    pub fn public_key_base64(&self) -> (r: Result<String, EnclaveError>)
        ensures
            r is Ok <==> self.is_initialized(),
            r matches Ok(s) ==> s@ == base64_of(self.spec_public_key()),
            r matches Err(e) ==> e matches EnclaveError::UninitializedKey,
    {
        match self.public_key() {
            Ok(pk) => Ok(base64_encode(pk.as_slice())),
            Err(e) => Err(e),
        }
    }

    /// Signs exactly the given bytes with the installed key, without
    /// mutating it; fails with `UninitializedKey` if and only if no key
    /// has been installed.
    pub fn sign(&self, message: &[u8]) -> (r: Result<[u8; 64], EnclaveError>)
        ensures
            r is Ok <==> self.is_initialized(),
            r matches Ok(sig) ==> sig@ == ed25519_sig_of(self.seed_bytes(), message@),
            r matches Err(e) ==> e matches EnclaveError::UninitializedKey,
    {
        match &self.seed {
            Some(seed) => Ok(ed25519_sign(seed, message)),
            None => Err(EnclaveError::UninitializedKey),
        }
    }
}

} // verus!
