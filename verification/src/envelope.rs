//! The signing envelope: canonical encoding of a response, the
//! domain-separation tag, and the assembly of a signed artifact.
use vstd::prelude::*;

use crate::EnclaveError;
use crate::codec::{
    lemma_concat_split, lemma_opt_str_encoding_unambiguous, lemma_str_encoding_unambiguous,
    lemma_u64_le_unambiguous, opt_str_encoding, opt_view, push_bytes, push_opt_str, push_str,
    push_u64_le, str_encoding,
};
use crate::crypto::{KeyManager, base64_encode, base64_of, ed25519_sig_of};
use crate::order::{OrderAction, OrderStatus, SignableOrderResponse, SignedOrderResponse};

verus! {

use vstd::bytes::spec_u64_to_le_bytes;

/// The canonical-encoding index of an action variant.
pub open spec fn action_index(a: OrderAction) -> u8 {
    match a {
        OrderAction::Initiate => 0,
        OrderAction::Deposit => 1,
        OrderAction::Release => 2,
        OrderAction::Refund => 3,
    }
}

/// The canonical-encoding index of a status variant.
pub open spec fn status_index(s: OrderStatus) -> u8 {
    match s {
        OrderStatus::Pending => 0,
        OrderStatus::Escrowed => 1,
        OrderStatus::Released => 2,
        OrderStatus::Refunded => 3,
        OrderStatus::Rejected => 4,
    }
}

/// The versioned domain-separation tag prepended to every signing input,
/// so that a signature under this protocol verifies under no other.
pub open spec fn spec_domain_tag() -> Seq<u8> {
    vstd::utf8::encode_utf8("nautilus/order/v1"@)
}

/// The canonical encoding of a response: fields in declaration order,
/// fixed-width little-endian integers, ULEB128-length-prefixed UTF-8
/// strings, one presence byte per optional field, no padding.
pub open spec fn encoding_of(r: SignableOrderResponse) -> Seq<u8> {
    seq![r.version] + (str_encoding(r.order_id@) + (seq![action_index(r.action)] + (seq![
        status_index(r.status),
    ] + (spec_u64_to_le_bytes(r.amount) + (str_encoding(r.currency@) + (spec_u64_to_le_bytes(
        r.server_timestamp_ms,
    ) + (opt_str_encoding(opt_view(r.escrow_tx_id)) + opt_str_encoding(opt_view(r.notes)))))))))
}

/// The encoding byte of an action variant.
fn action_byte(a: &OrderAction) -> (r: u8)
    ensures
        r == action_index(*a),
{
    match a {
        OrderAction::Initiate => 0,
        OrderAction::Deposit => 1,
        OrderAction::Release => 2,
        OrderAction::Refund => 3,
    }
}

/// The encoding byte of a status variant.
fn status_byte(s: &OrderStatus) -> (r: u8)
    ensures
        r == status_index(*s),
{
    match s {
        OrderStatus::Pending => 0,
        OrderStatus::Escrowed => 1,
        OrderStatus::Released => 2,
        OrderStatus::Refunded => 3,
        OrderStatus::Rejected => 4,
    }
}

/// Serializes a response into its canonical bytes. The encoding is a
/// function of the field values alone, so two equal responses always
/// serialize identically.
pub fn encode_response(resp: &SignableOrderResponse) -> (r: Vec<u8>)
    ensures
        r@ == encoding_of(*resp),
{
    let mut out: Vec<u8> = Vec::new();
    out.push(resp.version);
    push_str(&mut out, resp.order_id.as_str());
    out.push(action_byte(&resp.action));
    out.push(status_byte(&resp.status));
    push_u64_le(&mut out, resp.amount);
    push_str(&mut out, resp.currency.as_str());
    push_u64_le(&mut out, resp.server_timestamp_ms);
    push_opt_str(&mut out, &resp.escrow_tx_id);
    push_opt_str(&mut out, &resp.notes);
    assert(out@ =~= encoding_of(*resp));
    out
}

/// The exact bytes handed to the signer: the domain tag, then the
/// canonical encoding of the response.
pub fn signing_message(resp: &SignableOrderResponse) -> (r: Vec<u8>)
    ensures
        r@ == spec_domain_tag() + encoding_of(*resp),
{
    let mut m: Vec<u8> = Vec::new();
    push_bytes(&mut m, "nautilus/order/v1".as_bytes());
    let enc = encode_response(resp);
    push_bytes(&mut m, enc.as_slice());
    assert(m@ =~= spec_domain_tag() + encoding_of(*resp));
    m
}

/// Seals a response: signs `domain_tag || canonical_encode(response)`
/// with the key manager's installed key and assembles the signed
/// artifact, base64-rendered, under the "ed25519" scheme marker. Fails
/// with `UninitializedKey` if and only if no key has been installed; the
/// response is returned unchanged inside the artifact.
pub fn sign_response(km: &KeyManager, resp: SignableOrderResponse) -> (r: Result<
    SignedOrderResponse,
    EnclaveError,
>)
    ensures
        r is Ok <==> km.is_initialized(),
        r matches Ok(s) ==> {
            &&& s.response == resp
            &&& s.signature@ == base64_of(
                ed25519_sig_of(km.seed_bytes(), spec_domain_tag() + encoding_of(resp)),
            )
            &&& s.public_key@ == base64_of(km.spec_public_key())
            &&& s.scheme@ == "ed25519"@
        },
        r matches Err(e) ==> e matches EnclaveError::UninitializedKey,
{
    let msg = signing_message(&resp);
    let sig = match km.sign(msg.as_slice()) {
        Ok(s) => s,
        Err(e) => {
            return Err(e);
        },
    };
    let pk_b64 = match km.public_key_base64() {
        Ok(p) => p,
        Err(e) => {
            return Err(e);
        },
    };
    Ok(
        SignedOrderResponse {
            response: resp,
            signature: base64_encode(sig.as_slice()),
            public_key: pk_b64,
            scheme: "ed25519".to_owned(),
        },
    )
}

/// The signing input determines the response: two responses handed to
/// the signer under the same domain tag with equal bytes agree on every
/// field, so a signature attests to one response value.
pub proof fn lemma_signing_message_injective(r1: SignableOrderResponse, r2: SignableOrderResponse)
    requires
        spec_domain_tag() + encoding_of(r1) == spec_domain_tag() + encoding_of(r2),
    ensures
        r1.version == r2.version,
        r1.order_id@ == r2.order_id@,
        r1.action == r2.action,
        r1.status == r2.status,
        r1.amount == r2.amount,
        r1.currency@ == r2.currency@,
        r1.server_timestamp_ms == r2.server_timestamp_ms,
        opt_view(r1.escrow_tx_id) == opt_view(r2.escrow_tx_id),
        opt_view(r1.notes) == opt_view(r2.notes),
{
    lemma_concat_split(spec_domain_tag(), encoding_of(r1), spec_domain_tag(), encoding_of(r2));
    lemma_canonical_encoding_injective(r1, r2);
}

/// Injectivity of the action index.
proof fn lemma_action_index_injective(a1: OrderAction, a2: OrderAction)
    requires
        action_index(a1) == action_index(a2),
    ensures
        a1 == a2,
{
}

/// Injectivity of the status index.
proof fn lemma_status_index_injective(s1: OrderStatus, s2: OrderStatus)
    requires
        status_index(s1) == status_index(s2),
    ensures
        s1 == s2,
{
}

/// The canonical encoding is injective: two responses with the same
/// canonical bytes agree on every field. Together with the encoding
/// being a function of the field values alone, this makes the encoding
/// deterministic and unique per distinct response value.
pub proof fn lemma_canonical_encoding_injective(
    r1: SignableOrderResponse,
    r2: SignableOrderResponse,
)
    requires
        encoding_of(r1) == encoding_of(r2),
    ensures
        r1.version == r2.version,
        r1.order_id@ == r2.order_id@,
        r1.action == r2.action,
        r1.status == r2.status,
        r1.amount == r2.amount,
        r1.currency@ == r2.currency@,
        r1.server_timestamp_ms == r2.server_timestamp_ms,
        opt_view(r1.escrow_tx_id) == opt_view(r2.escrow_tx_id),
        opt_view(r1.notes) == opt_view(r2.notes),
{
    let x1 = str_encoding(r1.order_id@) + (seq![action_index(r1.action)] + (seq![
        status_index(r1.status),
    ] + (spec_u64_to_le_bytes(r1.amount) + (str_encoding(r1.currency@) + (spec_u64_to_le_bytes(
        r1.server_timestamp_ms,
    ) + (opt_str_encoding(opt_view(r1.escrow_tx_id)) + opt_str_encoding(opt_view(r1.notes))))))));
    let x2 = str_encoding(r2.order_id@) + (seq![action_index(r2.action)] + (seq![
        status_index(r2.status),
    ] + (spec_u64_to_le_bytes(r2.amount) + (str_encoding(r2.currency@) + (spec_u64_to_le_bytes(
        r2.server_timestamp_ms,
    ) + (opt_str_encoding(opt_view(r2.escrow_tx_id)) + opt_str_encoding(opt_view(r2.notes))))))));
    lemma_concat_split(seq![r1.version], x1, seq![r2.version], x2);
    assert(seq![r1.version][0] == seq![r2.version][0]);

    let y1 = seq![action_index(r1.action)] + (seq![status_index(r1.status)] + (spec_u64_to_le_bytes(
        r1.amount,
    ) + (str_encoding(r1.currency@) + (spec_u64_to_le_bytes(r1.server_timestamp_ms) + (
    opt_str_encoding(opt_view(r1.escrow_tx_id)) + opt_str_encoding(opt_view(r1.notes)))))));
    let y2 = seq![action_index(r2.action)] + (seq![status_index(r2.status)] + (spec_u64_to_le_bytes(
        r2.amount,
    ) + (str_encoding(r2.currency@) + (spec_u64_to_le_bytes(r2.server_timestamp_ms) + (
    opt_str_encoding(opt_view(r2.escrow_tx_id)) + opt_str_encoding(opt_view(r2.notes)))))));
    lemma_str_encoding_unambiguous(r1.order_id@, r2.order_id@, y1, y2);

    let z1 = seq![status_index(r1.status)] + (spec_u64_to_le_bytes(r1.amount) + (str_encoding(
        r1.currency@,
    ) + (spec_u64_to_le_bytes(r1.server_timestamp_ms) + (opt_str_encoding(
        opt_view(r1.escrow_tx_id),
    ) + opt_str_encoding(opt_view(r1.notes))))));
    let z2 = seq![status_index(r2.status)] + (spec_u64_to_le_bytes(r2.amount) + (str_encoding(
        r2.currency@,
    ) + (spec_u64_to_le_bytes(r2.server_timestamp_ms) + (opt_str_encoding(
        opt_view(r2.escrow_tx_id),
    ) + opt_str_encoding(opt_view(r2.notes))))));
    lemma_concat_split(seq![action_index(r1.action)], z1, seq![action_index(r2.action)], z2);
    assert(seq![action_index(r1.action)][0] == seq![action_index(r2.action)][0]);
    lemma_action_index_injective(r1.action, r2.action);

    let w1 = spec_u64_to_le_bytes(r1.amount) + (str_encoding(r1.currency@) + (spec_u64_to_le_bytes(
        r1.server_timestamp_ms,
    ) + (opt_str_encoding(opt_view(r1.escrow_tx_id)) + opt_str_encoding(opt_view(r1.notes)))));
    let w2 = spec_u64_to_le_bytes(r2.amount) + (str_encoding(r2.currency@) + (spec_u64_to_le_bytes(
        r2.server_timestamp_ms,
    ) + (opt_str_encoding(opt_view(r2.escrow_tx_id)) + opt_str_encoding(opt_view(r2.notes)))));
    lemma_concat_split(seq![status_index(r1.status)], w1, seq![status_index(r2.status)], w2);
    assert(seq![status_index(r1.status)][0] == seq![status_index(r2.status)][0]);
    lemma_status_index_injective(r1.status, r2.status);

    let c1 = str_encoding(r1.currency@) + (spec_u64_to_le_bytes(r1.server_timestamp_ms) + (
    opt_str_encoding(opt_view(r1.escrow_tx_id)) + opt_str_encoding(opt_view(r1.notes))));
    let c2 = str_encoding(r2.currency@) + (spec_u64_to_le_bytes(r2.server_timestamp_ms) + (
    opt_str_encoding(opt_view(r2.escrow_tx_id)) + opt_str_encoding(opt_view(r2.notes))));
    lemma_u64_le_unambiguous(r1.amount, r2.amount, c1, c2);

    let d1 = spec_u64_to_le_bytes(r1.server_timestamp_ms) + (opt_str_encoding(
        opt_view(r1.escrow_tx_id),
    ) + opt_str_encoding(opt_view(r1.notes)));
    let d2 = spec_u64_to_le_bytes(r2.server_timestamp_ms) + (opt_str_encoding(
        opt_view(r2.escrow_tx_id),
    ) + opt_str_encoding(opt_view(r2.notes)));
    lemma_str_encoding_unambiguous(r1.currency@, r2.currency@, d1, d2);

    let e1 = opt_str_encoding(opt_view(r1.escrow_tx_id)) + opt_str_encoding(opt_view(r1.notes));
    let e2 = opt_str_encoding(opt_view(r2.escrow_tx_id)) + opt_str_encoding(opt_view(r2.notes));
    lemma_u64_le_unambiguous(r1.server_timestamp_ms, r2.server_timestamp_ms, e1, e2);

    lemma_opt_str_encoding_unambiguous(
        opt_view(r1.escrow_tx_id),
        opt_view(r2.escrow_tx_id),
        opt_str_encoding(opt_view(r1.notes)),
        opt_str_encoding(opt_view(r2.notes)),
    );

    assert(opt_str_encoding(opt_view(r1.notes)) + Seq::<u8>::empty() =~= opt_str_encoding(
        opt_view(r1.notes),
    ));
    assert(opt_str_encoding(opt_view(r2.notes)) + Seq::<u8>::empty() =~= opt_str_encoding(
        opt_view(r2.notes),
    ));
    lemma_opt_str_encoding_unambiguous(
        opt_view(r1.notes),
        opt_view(r2.notes),
        Seq::<u8>::empty(),
        Seq::<u8>::empty(),
    );
}

} // verus!
