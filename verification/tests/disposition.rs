//! The disposition table and verbatim field copying.
use nautilus_server::{OrderAction, OrderRequest, OrderStatus, compute_response, make_response};

fn request(action: OrderAction) -> OrderRequest {
    OrderRequest {
        version: 1,
        order_id: "order-7".to_string(),
        customer: "cust".to_string(),
        merchant: "merch".to_string(),
        amount: 2500,
        currency: "EUR".to_string(),
        action,
        client_timestamp_ms: Some(1_700_000_000_000),
        metadata: None,
    }
}

#[test]
fn initiate_yields_pending() {
    let r = compute_response(&request(OrderAction::Initiate), 42);
    assert_eq!(r.status, OrderStatus::Pending);
}

#[test]
fn deposit_yields_escrowed() {
    let r = compute_response(&request(OrderAction::Deposit), 42);
    assert_eq!(r.status, OrderStatus::Escrowed);
}

#[test]
fn release_yields_released() {
    let r = compute_response(&request(OrderAction::Release), 42);
    assert_eq!(r.status, OrderStatus::Released);
}

#[test]
fn refund_yields_refunded() {
    let r = compute_response(&request(OrderAction::Refund), 42);
    assert_eq!(r.status, OrderStatus::Refunded);
}

#[test]
fn fields_copied_verbatim() {
    let r = compute_response(&request(OrderAction::Deposit), 42);
    assert_eq!(r.version, 1);
    assert_eq!(r.order_id, "order-7");
    assert_eq!(r.action, OrderAction::Deposit);
    assert_eq!(r.amount, 2500);
    assert_eq!(r.currency, "EUR");
    assert_eq!(r.server_timestamp_ms, 42);
    assert!(r.escrow_tx_id.is_none());
    assert!(r.notes.is_none());
}

#[test]
fn empty_and_zero_fields_pass_through() {
    let req = OrderRequest {
        version: 0,
        order_id: String::new(),
        customer: String::new(),
        merchant: String::new(),
        amount: 0,
        currency: String::new(),
        action: OrderAction::Initiate,
        client_timestamp_ms: None,
        metadata: None,
    };
    let r = compute_response(&req, 0);
    assert_eq!(r.order_id, "");
    assert_eq!(r.amount, 0);
    assert_eq!(r.currency, "");
    assert_eq!(r.status, OrderStatus::Pending);
}

#[test]
fn make_response_stamps_a_time() {
    let before = nautilus_server::unix_time_ms();
    let r = make_response(&request(OrderAction::Release));
    let after = nautilus_server::unix_time_ms();
    assert_eq!(r.status, OrderStatus::Released);
    assert!(before <= r.server_timestamp_ms && r.server_timestamp_ms <= after);
}
