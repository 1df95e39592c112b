//! Key lifecycle: explicit failure before initialization, idempotent
//! initialization, and the action-name boundary.
use nautilus_server::{EnclaveError, KeyManager, OrderAction, action_from_str, action_name};

#[test]
fn public_key_before_init_fails() {
    let km = KeyManager::new();
    assert!(matches!(km.public_key(), Err(EnclaveError::UninitializedKey)));
    assert!(matches!(km.public_key_base64(), Err(EnclaveError::UninitializedKey)));
}

#[test]
fn sign_before_init_fails() {
    let km = KeyManager::new();
    assert!(matches!(km.sign(b"payload"), Err(EnclaveError::UninitializedKey)));
}

#[test]
fn ensure_initialized_is_idempotent() {
    let mut km = KeyManager::new();
    assert!(km.ensure_initialized().is_ok());
    let pk1 = km.public_key().unwrap();
    for _ in 0..5 {
        assert!(km.ensure_initialized().is_ok());
    }
    let pk2 = km.public_key().unwrap();
    assert_eq!(pk1, pk2);
    assert_eq!(
        km.public_key_base64().unwrap(),
        km.public_key_base64().unwrap()
    );
}

#[test]
fn distinct_managers_draw_distinct_keys() {
    let mut a = KeyManager::new();
    let mut b = KeyManager::new();
    a.ensure_initialized().unwrap();
    b.ensure_initialized().unwrap();
    assert_ne!(a.public_key().unwrap(), b.public_key().unwrap());
}

#[test]
fn action_names_round_trip() {
    for action in [
        OrderAction::Initiate,
        OrderAction::Deposit,
        OrderAction::Release,
        OrderAction::Refund,
    ] {
        assert_eq!(action_from_str(action_name(&action)), Some(action));
    }
}

#[test]
fn malformed_action_strings_rejected() {
    assert_eq!(action_from_str("Deposit"), None);
    assert_eq!(action_from_str("refundd"), None);
    assert_eq!(action_from_str(""), None);
    assert_eq!(action_from_str("settle"), None);
    assert_eq!(action_from_str("deposit "), None);
}

#[test]
fn error_messages() {
    let e = EnclaveError::GenericError("boom".to_string());
    assert_eq!(e.message(), "boom");
    assert!(!EnclaveError::UninitializedKey.message().is_empty());
    assert!(!EnclaveError::RandomnessUnavailable.message().is_empty());
}
