//! Enclave-resident order-signing core: a key manager for the enclave's
//! ephemeral Ed25519 key, a pure request-to-disposition mapping, and a
//! canonical, domain-separated signing envelope.
use vstd::prelude::*;

pub mod codec;
pub mod crypto;
pub mod envelope;
pub mod order;

pub use crypto::KeyManager;
pub use envelope::{encode_response, sign_response, signing_message};
pub use order::{
    OrderAction, OrderRequest, OrderStatus, SignableOrderResponse, SignedOrderResponse,
    action_from_str, action_name, compute_response, make_response, status_for, status_name,
    unix_time_ms,
};

verus! {

/// Process-wide container for the state that every request-handling path
/// shares: the enclave's key manager, constructed once at startup, and
/// the API key kept for compatibility with other serving modes.
pub struct AppState {
    /// The enclave's ephemeral signing key, initialized at boot.
    pub key_manager: KeyManager,
    /// API key; unused in order handling but kept for compatibility.
    pub api_key: String,
}

/// Errors surfaced by the signing core.
#[derive(Debug)]
pub enum EnclaveError {
    /// The secure randomness source could not supply seed bytes during key
    /// initialization; fatal at startup.
    RandomnessUnavailable,
    /// Public-key export or signing was attempted before initialization.
    UninitializedKey,
    /// Catch-all for errors reported by surrounding layers.
    GenericError(String),
}

impl EnclaveError {
    /// A short human-readable description of the error.
    pub fn message(&self) -> (m: String)
        ensures
            self matches EnclaveError::RandomnessUnavailable ==> m@
                == "secure randomness source unavailable"@,
            self matches EnclaveError::UninitializedKey ==> m@ == "signing key not initialized"@,
            self matches EnclaveError::GenericError(s) ==> m@ == s@,
    {
        match self {
            EnclaveError::RandomnessUnavailable => "secure randomness source unavailable".to_owned(),
            EnclaveError::UninitializedKey => "signing key not initialized".to_owned(),
            EnclaveError::GenericError(msg) => msg.clone(),
        }
    }
}

} // verus!
