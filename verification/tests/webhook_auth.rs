use rusty_razorpay::util::generate_webhook_signature;
use rusty_razorpay::webhook::{
    EventType, WebhookError, WebhookPayloadItem, WebhookPayloadItemName, Webhook,
};

#[test]
fn signing_matches_the_published_hmac_sha256_vector() {
    // RFC 4231, test case 2.
    let sig = generate_webhook_signature("what do ya want for nothing?", "Jefe");
    assert_eq!(
        sig,
        "5bdcc146bf60754e6a042426089575c75a003f089d2739839dec58b964ec3843"
    );
}

#[test]
fn signing_is_deterministic() {
    let a = generate_webhook_signature("body", "whsec_test");
    let b = generate_webhook_signature("body", "whsec_test");
    assert_eq!(a, b);
}

#[test]
fn changing_one_byte_changes_the_signature() {
    let base = generate_webhook_signature("body", "whsec_test");
    assert_ne!(base, generate_webhook_signature("bodz", "whsec_test"));
    assert_ne!(base, generate_webhook_signature("body", "whsec_tesu"));
}

fn event_body() -> String {
    String::from("{\"entity\":\"event\",\"account_id\":\"acc_BFQ7uQEaa7j2z7\",\"event\":\"payment.captured\",\"contains\":[\"payment\"],\"payload\":{\"payment\":{\"entity\":{\"id\":\"pay_DESlfW9H8K9uqM\",\"amount\":100}}},\"created_at\":1567674606}")
}

#[test]
fn a_signed_body_verifies_and_parses() {
    let body = event_body();
    let secret = "whsec_test";
    let sig = generate_webhook_signature(&body, secret);
    let event = Webhook::construct_event(&body, &sig, secret).expect("should verify and parse");
    assert_eq!(event.account_id, "acc_BFQ7uQEaa7j2z7");
    assert_eq!(event.type_, EventType::PaymentCaptured);
    assert_eq!(event.contains, vec![WebhookPayloadItemName::Payment]);
    assert_eq!(event.created_at, 1567674606);
    assert_eq!(event.payload.len(), 1);
    assert_eq!(event.payload[0].0, WebhookPayloadItemName::Payment);
    match &event.payload[0].1.entity {
        WebhookPayloadItem::Other(_) => {}
        WebhookPayloadItem::Order(_) => panic!("a payment body is not an order"),
    }
}

#[test]
fn a_wrong_signature_is_rejected_before_parsing() {
    let body = event_body();
    let secret = "whsec_test";
    let mut sig = generate_webhook_signature(&body, secret);
    // Flip one character of the received signature.
    let flipped = if sig.ends_with('0') { "1" } else { "0" };
    sig.truncate(sig.len() - 1);
    sig.push_str(flipped);
    match Webhook::construct_event(&body, &sig, secret) {
        Err(WebhookError::BadSignature) => {}
        _ => panic!("a mismatched signature must be rejected"),
    }
}

#[test]
fn a_wrong_secret_is_rejected() {
    let body = event_body();
    let sig = generate_webhook_signature(&body, "whsec_test");
    match Webhook::construct_event(&body, &sig, "whsec_other") {
        Err(WebhookError::BadSignature) => {}
        _ => panic!("a signature under another secret must be rejected"),
    }
}

#[test]
fn an_authentic_but_malformed_body_is_a_parse_error() {
    let body = "{\"entity\":\"event\"}";
    let secret = "whsec_test";
    let sig = generate_webhook_signature(body, secret);
    match Webhook::construct_event(body, &sig, secret) {
        Err(WebhookError::ParseError(_)) => {}
        _ => panic!("an event without its members must be a parse error"),
    }
    let not_json = "not json at all";
    let sig = generate_webhook_signature(not_json, secret);
    match Webhook::construct_event(not_json, &sig, secret) {
        Err(WebhookError::ParseError(_)) => {}
        _ => panic!("a non-JSON body must be a parse error"),
    }
}

#[test]
fn an_order_payload_entity_decodes_to_the_typed_order() {
    let body = String::from("{\"entity\":\"event\",\"account_id\":\"acc_x\",\"event\":\"order.paid\",\"contains\":[\"order\"],\"payload\":{\"order\":{\"entity\":{\"id\":\"order_abc\",\"entity\":\"order\",\"amount\":199,\"amount_paid\":199,\"amount_due\":0,\"currency\":\"INR\",\"receipt\":null,\"status\":\"paid\",\"notes\":[],\"attempts\":1,\"created_at\":1567674606}}},\"created_at\":1567674607}");
    let secret = "whsec_test";
    let sig = generate_webhook_signature(&body, secret);
    let event = Webhook::construct_event(&body, &sig, secret).expect("should verify and parse");
    assert_eq!(event.type_, EventType::OrderPaid);
    match &event.payload[0].1.entity {
        WebhookPayloadItem::Order(o) => {
            assert_eq!(o.id.as_str(), "order_abc");
            assert_eq!(o.amount, 199);
        }
        WebhookPayloadItem::Other(_) => panic!("an order body must decode to the typed order"),
    }
}

#[test]
fn webhook_error_messages() {
    assert_eq!(WebhookError::BadSignature.message(), "Bad signature");
    assert_eq!(
        WebhookError::ParseError(String::from("x")).message(),
        "Parsing error: x"
    );
}

#[test]
fn event_type_names_round_trip() {
    assert_eq!(EventType::PaymentCaptured.as_str(), "payment.captured");
    assert_eq!(EventType::parse("payment.captured"), Some(EventType::PaymentCaptured));
    assert_eq!(EventType::parse("order.paid"), Some(EventType::OrderPaid));
    assert_eq!(EventType::parse("transaction.created"), Some(EventType::TransactionCreated));
    assert_eq!(EventType::parse("no.such.event"), None);
    assert_eq!(
        WebhookPayloadItemName::parse("fund_account.validation"),
        Some(WebhookPayloadItemName::FundAccountValidation)
    );
    assert_eq!(WebhookPayloadItemName::parse("virtual_account"),
        Some(WebhookPayloadItemName::VirtualAccount));
    assert_eq!(WebhookPayloadItemName::parse("order"), Some(WebhookPayloadItemName::Order));
}
