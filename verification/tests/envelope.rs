//! End-to-end sealing: signatures verify over the domain-separated
//! canonical bytes, and any tampering breaks verification.
use base64::Engine;
use base64::engine::general_purpose::STANDARD as B64;
use ed25519_dalek::{Signature, Verifier, VerifyingKey};
use nautilus_server::{
    KeyManager, OrderAction, OrderRequest, OrderStatus, SignedOrderResponse, make_response,
    sign_response, signing_message,
};

fn scenario_request() -> OrderRequest {
    OrderRequest {
        version: 1,
        order_id: "o1".to_string(),
        customer: "c".to_string(),
        merchant: "m".to_string(),
        amount: 500,
        currency: "USD".to_string(),
        action: OrderAction::Deposit,
        client_timestamp_ms: None,
        metadata: None,
    }
}

fn ready_key_manager() -> KeyManager {
    let mut km = KeyManager::new();
    km.ensure_initialized().unwrap();
    km
}

fn decode_key_and_signature(signed: &SignedOrderResponse) -> (VerifyingKey, Signature) {
    let pk_bytes: [u8; 32] = B64
        .decode(&signed.public_key)
        .unwrap()
        .try_into()
        .unwrap();
    let sig_bytes: [u8; 64] = B64.decode(&signed.signature).unwrap().try_into().unwrap();
    (
        VerifyingKey::from_bytes(&pk_bytes).unwrap(),
        Signature::from_bytes(&sig_bytes),
    )
}

#[test]
fn seal_verifies_over_tagged_canonical_bytes() {
    let km = ready_key_manager();
    let resp = make_response(&scenario_request());
    let msg = signing_message(&resp);
    let signed = sign_response(&km, resp).unwrap();
    assert_eq!(signed.scheme, "ed25519");
    assert_eq!(signed.public_key, km.public_key_base64().unwrap());
    let (vk, sig) = decode_key_and_signature(&signed);
    assert!(vk.verify(&msg, &sig).is_ok());
}

#[test]
fn any_flipped_bit_breaks_verification() {
    let km = ready_key_manager();
    let resp = make_response(&scenario_request());
    let msg = signing_message(&resp);
    let signed = sign_response(&km, resp).unwrap();
    let (vk, sig) = decode_key_and_signature(&signed);
    let tag_len = b"nautilus/order/v1".len();
    // one bit in the domain tag, and one in every byte of the encoding
    for i in [0, tag_len - 1] {
        let mut tampered = msg.clone();
        tampered[i] ^= 0x01;
        assert!(vk.verify(&tampered, &sig).is_err());
    }
    for i in tag_len..msg.len() {
        let mut tampered = msg.clone();
        tampered[i] ^= 0x80;
        assert!(vk.verify(&tampered, &sig).is_err());
    }
}

#[test]
fn sealing_without_a_key_fails() {
    let km = KeyManager::new();
    let resp = make_response(&scenario_request());
    assert!(matches!(
        sign_response(&km, resp),
        Err(nautilus_server::EnclaveError::UninitializedKey)
    ));
}

#[test]
fn scenario_deposit_escrowed_signed() {
    let km = ready_key_manager();
    let resp = make_response(&scenario_request());
    assert_eq!(resp.status, OrderStatus::Escrowed);
    assert_eq!(resp.amount, 500);
    assert_eq!(resp.currency, "USD");
    assert_eq!(resp.order_id, "o1");
    let msg = signing_message(&resp);
    let signed = sign_response(&km, resp).unwrap();
    let (vk, sig) = decode_key_and_signature(&signed);
    assert!(vk.verify(&msg, &sig).is_ok());
}

#[test]
fn scenario_same_request_twice() {
    let km = ready_key_manager();
    let first = make_response(&scenario_request());
    let second = make_response(&scenario_request());
    assert!(first.server_timestamp_ms <= second.server_timestamp_ms);
    let msg1 = signing_message(&first);
    let msg2 = signing_message(&second);
    let s1 = sign_response(&km, first).unwrap();
    let s2 = sign_response(&km, second).unwrap();
    assert_eq!(s1.response.order_id, s2.response.order_id);
    assert_eq!(s1.response.action, s2.response.action);
    assert_eq!(s1.response.status, s2.response.status);
    assert_eq!(s1.response.amount, s2.response.amount);
    assert_eq!(s1.response.currency, s2.response.currency);
    assert_eq!(s1.public_key, s2.public_key);
    let (vk1, sig1) = decode_key_and_signature(&s1);
    let (vk2, sig2) = decode_key_and_signature(&s2);
    assert!(vk1.verify(&msg1, &sig1).is_ok());
    assert!(vk2.verify(&msg2, &sig2).is_ok());
}

#[test]
fn scenario_refund_of_zero() {
    let km = ready_key_manager();
    let mut req = scenario_request();
    req.action = OrderAction::Refund;
    req.amount = 0;
    let resp = make_response(&req);
    assert_eq!(resp.status, OrderStatus::Refunded);
    assert_eq!(resp.amount, 0);
    let msg = signing_message(&resp);
    let signed = sign_response(&km, resp).unwrap();
    let (vk, sig) = decode_key_and_signature(&signed);
    assert!(vk.verify(&msg, &sig).is_ok());
}
