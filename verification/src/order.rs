//! Order data model and the pure request-to-disposition mapping.
use std::time::{SystemTime, UNIX_EPOCH};
use vstd::prelude::*;

verus! {

broadcast use vstd::string::group_string_axioms;

/// Declares serde_json's `Value` so that a request can carry opaque
/// caller metadata through; the core never reads it.
#[verifier::external_type_specification]
#[verifier::external_body]
pub struct ExJsonValue(serde_json::Value);

/// The caller's requested operation; a closed set.
#[derive(Debug, Clone, Copy, PartialEq, Eq, Structural)]
pub enum OrderAction {
    Initiate,
    Deposit,
    Release,
    Refund,
}

/// The enclave's determination for a request. `Rejected` exists in the
/// type but is unreachable from the current mapping.
#[derive(Debug, Clone, Copy, PartialEq, Eq, Structural)]
pub enum OrderStatus {
    Pending,
    Escrowed,
    Released,
    Refunded,
    Rejected,
}

/// An incoming order instruction, constructed from external input.
#[derive(Debug)]
pub struct OrderRequest {
    /// Protocol version, starting at 1.
    pub version: u8,
    /// Caller-assigned order identifier, preserved verbatim.
    pub order_id: String,
    pub customer: String,
    pub merchant: String,
    /// Amount in minor currency units (e.g. cents).
    pub amount: u64,
    /// Currency code, e.g. "USD".
    pub currency: String,
    /// The requested operation.
    pub action: OrderAction,
    pub client_timestamp_ms: Option<u64>,
    /// Opaque caller metadata; carried through but never read.
    pub metadata: Option<serde_json::Value>,
}

/// The exact object that gets signed after canonical encoding; field
/// order is part of the protocol.
#[derive(Debug)]
pub struct SignableOrderResponse {
    pub version: u8,
    pub order_id: String,
    pub action: OrderAction,
    pub status: OrderStatus,
    pub amount: u64,
    pub currency: String,
    /// Milliseconds since the Unix epoch, or zero if the clock failed.
    pub server_timestamp_ms: u64,
    /// On-chain transaction reference, if any; currently always absent.
    pub escrow_tx_id: Option<String>,
    /// Reason for rejection or other information.
    pub notes: Option<String>,
}

/// A response together with its signature, the signing public key, and
/// the signature scheme, each rendered for transport.
#[derive(Debug)]
pub struct SignedOrderResponse {
    pub response: SignableOrderResponse,
    /// Base64 of the Ed25519 signature over the domain-separated canonical bytes.
    pub signature: String,
    /// Base64 of the Ed25519 public key.
    pub public_key: String,
    /// The literal "ed25519".
    pub scheme: String,
}

/// The disposition table: the status that each requested action yields.
pub open spec fn status_for(action: OrderAction) -> OrderStatus {
    match action {
        OrderAction::Initiate => OrderStatus::Pending,
        OrderAction::Deposit => OrderStatus::Escrowed,
        OrderAction::Release => OrderStatus::Released,
        OrderAction::Refund => OrderStatus::Refunded,
    }
}

/// Maps a request to its unsigned response, stamped with the given server
/// time. Every field other than `status`, the timestamp and the two
/// absent annotations is copied verbatim from the request; no validation
/// of amounts, currencies or identifiers is performed.
pub fn compute_response(req: &OrderRequest, now_ms: u64) -> (r: SignableOrderResponse)
    ensures
        r.version == req.version,
        r.order_id@ == req.order_id@,
        r.action == req.action,
        r.status == status_for(req.action),
        r.amount == req.amount,
        r.currency@ == req.currency@,
        r.server_timestamp_ms == now_ms,
        r.escrow_tx_id is None,
        r.notes is None,
{
    let status = match req.action {
        OrderAction::Initiate => OrderStatus::Pending,
        OrderAction::Deposit => OrderStatus::Escrowed,
        OrderAction::Release => OrderStatus::Released,
        OrderAction::Refund => OrderStatus::Refunded,
    };
    SignableOrderResponse {
        version: req.version,
        order_id: req.order_id.clone(),
        action: req.action,
        status,
        amount: req.amount,
        currency: req.currency.clone(),
        server_timestamp_ms: now_ms,
        escrow_tx_id: None,
        notes: None,
    }
}

/// Relies on std's SystemTime: the wall-clock time in milliseconds since
/// the Unix epoch, or zero if the clock reads as earlier than the epoch.
/// Nothing is assumed of the value returned.
#[verifier::external_body]
pub fn unix_time_ms() -> u64 {
    match SystemTime::now().duration_since(UNIX_EPOCH) {
        Ok(d) => d.as_millis() as u64,
        Err(_) => 0,
    }
}

/// Maps a request to its unsigned response, stamped with the current
/// wall-clock time. Disposition never fails on a clock error: the
/// timestamp is then zero, and every other field is as
/// [`compute_response`] determines regardless of what the clock read.
pub fn make_response(req: &OrderRequest) -> (r: SignableOrderResponse)
    ensures
        r.version == req.version,
        r.order_id@ == req.order_id@,
        r.action == req.action,
        r.status == status_for(req.action),
        r.amount == req.amount,
        r.currency@ == req.currency@,
        r.escrow_tx_id is None,
        r.notes is None,
{
    let now_ms = unix_time_ms();
    compute_response(req, now_ms)
}

/// Parses an action name as the request boundary renders it. Returns the
/// action exactly when the name is in the closed set; any other string is
/// rejected with `None`.
pub fn action_from_str(s: &str) -> (r: Option<OrderAction>)
    ensures
        r == Some(OrderAction::Initiate) <==> s@ == "initiate"@,
        r == Some(OrderAction::Deposit) <==> s@ == "deposit"@,
        r == Some(OrderAction::Release) <==> s@ == "release"@,
        r == Some(OrderAction::Refund) <==> s@ == "refund"@,
        r is None <==> (s@ != "initiate"@ && s@ != "deposit"@ && s@ != "release"@ && s@
            != "refund"@),
{
    proof {
        reveal_strlit("initiate");
        reveal_strlit("deposit");
        reveal_strlit("release");
        reveal_strlit("refund");
        assert("initiate"@.len() == 8 && "deposit"@.len() == 7 && "release"@.len() == 7
            && "refund"@.len() == 6);
        assert("deposit"@[0] == 'd' && "release"@[0] == 'r');
        assert("deposit"@ != "release"@);
    }
    if compare_str(s, "initiate") {
        Some(OrderAction::Initiate)
    } else if compare_str(s, "deposit") {
        Some(OrderAction::Deposit)
    } else if compare_str(s, "release") {
        Some(OrderAction::Release)
    } else if compare_str(s, "refund") {
        Some(OrderAction::Refund)
    } else {
        None
    }
}

/// The name under which an action travels on the wire.
pub fn action_name(action: &OrderAction) -> (r: &'static str)
    ensures
        *action == OrderAction::Initiate ==> r@ == "initiate"@,
        *action == OrderAction::Deposit ==> r@ == "deposit"@,
        *action == OrderAction::Release ==> r@ == "release"@,
        *action == OrderAction::Refund ==> r@ == "refund"@,
{
    match action {
        OrderAction::Initiate => "initiate",
        OrderAction::Deposit => "deposit",
        OrderAction::Release => "release",
        OrderAction::Refund => "refund",
    }
}

/// The name under which a status travels on the wire.
pub fn status_name(status: &OrderStatus) -> (r: &'static str)
    ensures
        *status == OrderStatus::Pending ==> r@ == "pending"@,
        *status == OrderStatus::Escrowed ==> r@ == "escrowed"@,
        *status == OrderStatus::Released ==> r@ == "released"@,
        *status == OrderStatus::Refunded ==> r@ == "refunded"@,
        *status == OrderStatus::Rejected ==> r@ == "rejected"@,
{
    match status {
        OrderStatus::Pending => "pending",
        OrderStatus::Escrowed => "escrowed",
        OrderStatus::Released => "released",
        OrderStatus::Refunded => "refunded",
        OrderStatus::Rejected => "rejected",
    }
}

/// String equality on slices, decided through `str::as_bytes` and the
/// injectivity of UTF-8.
fn compare_str(a: &str, b: &str) -> (r: bool)
    ensures
        r <==> a@ == b@,
{
    let ab = a.as_bytes();
    let bb = b.as_bytes();
    proof {
        vstd::utf8::encode_utf8_decode_utf8(a@);
        vstd::utf8::encode_utf8_decode_utf8(b@);
    }
    if ab.len() != bb.len() {
        return false;
    }
    let mut i: usize = 0;
    while i < ab.len()
        invariant
            ab.len() == bb.len(),
            i <= ab.len(),
            ab@ == vstd::utf8::encode_utf8(a@),
            bb@ == vstd::utf8::encode_utf8(b@),
            forall|j: int| 0 <= j < i ==> ab@[j] == bb@[j],
        decreases ab.len() - i,
    {
        if ab[i] != bb[i] {
            return false;
        }
        i = i + 1;
    }
    proof {
        assert(ab@ =~= bb@);
    }
    true
}

} // verus!
