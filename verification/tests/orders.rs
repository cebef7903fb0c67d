use rusty_razorpay::common::{Currency, Filter};
use rusty_razorpay::error::RazorpayError;
use rusty_razorpay::json::json_to_text;
use rusty_razorpay::order::{CreateOrder, ListOrders, Order, OrderExpand, OrderStatus};
use rusty_razorpay::OrderId;

fn full_order_body() -> &'static str {
    "{\"id\":\"order_abc\",\"entity\":\"order\",\"amount\":199,\"amount_paid\":0,\"amount_due\":199,\"currency\":\"INR\",\"receipt\":\"rcpt_1\",\"status\":\"created\",\"notes\":{\"k\":\"v\"},\"attempts\":0,\"created_at\":1567674606}"
}

#[test]
fn a_created_order_decodes_with_its_exact_field_values() {
    let order = Order::decode_response(full_order_body()).expect("a success body should decode");
    assert_eq!(order.id.as_str(), "order_abc");
    assert_eq!(order.amount, 199);
    assert_eq!(order.currency, Currency::INR);
    assert_eq!(order.status, OrderStatus::Created);
    assert_eq!(order.amount_paid, 0);
    assert_eq!(order.amount_due, 199);
    assert_eq!(order.receipt.as_deref(), Some("rcpt_1"));
    assert_eq!(order.notes, vec![(String::from("k"), String::from("v"))]);
    assert_eq!(order.attempts, 0);
    assert_eq!(order.created_at, 1567674606);
    assert_eq!(order.partial_payment, None);
    assert_eq!(order.offer_id, None);
    assert_eq!(order.payments, None);
}

#[test]
fn an_error_body_fails_the_order_call_with_the_service_error() {
    let body = "{\"error\":{\"code\":\"BAD_REQUEST\",\"description\":\"amount must be positive\"}}";
    match Order::decode_response(body) {
        Err(RazorpayError::ApiError(e)) => {
            assert_eq!(e.code, "BAD_REQUEST");
            assert_eq!(e.description, "amount must be positive");
        }
        _ => panic!("an error body must surface the service error"),
    }
}

#[test]
fn empty_array_notes_count_as_an_empty_map() {
    let body = "{\"id\":\"order_abc\",\"entity\":\"order\",\"amount\":1,\"amount_paid\":0,\"amount_due\":1,\"currency\":\"USD\",\"receipt\":null,\"status\":\"paid\",\"notes\":[],\"attempts\":2,\"created_at\":5}";
    let order = Order::decode_response(body).expect("empty-array notes are accepted");
    assert!(order.notes.is_empty());
    assert_eq!(order.status, OrderStatus::Paid);
    assert_eq!(order.receipt, None);
}

#[test]
fn an_order_body_with_a_wrong_id_prefix_is_rejected() {
    let body = "{\"id\":\"pay_abc\",\"entity\":\"order\",\"amount\":1,\"amount_paid\":0,\"amount_due\":1,\"currency\":\"INR\",\"receipt\":null,\"status\":\"paid\",\"notes\":[],\"attempts\":0,\"created_at\":5}";
    match Order::decode_response(body) {
        Err(RazorpayError::SerializationError(_)) => {}
        _ => panic!("a foreign id prefix is not an order"),
    }
}

#[test]
fn create_order_serializes_in_declaration_order() {
    let params = CreateOrder {
        amount: 199,
        currency: Currency::INR,
        receipt: None,
        notes: vec![],
        partial_payment: None,
        bank_account: None,
    };
    let rp = Order::create_request(&params);
    assert_eq!(rp.url, "/orders");
    assert!(rp.version.is_none());
    let body = json_to_text(&rp.data.expect("creation always carries a body"));
    assert_eq!(body, "{\"amount\":199,\"currency\":\"INR\"}");
}

#[test]
fn create_order_keeps_optional_members_when_present() {
    let params = CreateOrder {
        amount: 1,
        currency: Currency::USD,
        receipt: Some("r1"),
        notes: vec![(String::from("k"), String::from("v"))],
        partial_payment: Some(true),
        bank_account: None,
    };
    let rp = Order::create_request(&params);
    let body = json_to_text(&rp.data.expect("creation always carries a body"));
    assert_eq!(
        body,
        "{\"amount\":1,\"currency\":\"USD\",\"receipt\":\"r1\",\"notes\":{\"k\":\"v\"},\"partial_payment\":true}"
    );
}

#[test]
fn an_order_listing_decodes_with_its_items() {
    let body = "{\"entity\":\"collection\",\"count\":1,\"items\":[{\"id\":\"order_abc\",\"entity\":\"order\",\"amount\":199,\"amount_paid\":0,\"amount_due\":199,\"currency\":\"INR\",\"receipt\":null,\"status\":\"created\",\"notes\":[],\"attempts\":0,\"created_at\":7}]}";
    let page = Order::decode_collection_response(body).expect("a collection body should decode");
    assert_eq!(page.count, 1);
    assert_eq!(page.items.len(), 1);
    assert_eq!(page.items[0].id.as_str(), "order_abc");
    assert_eq!(page.items[0].amount, 199);

    let empty = "{\"entity\":\"collection\",\"count\":0,\"items\":[]}";
    let page = Order::decode_collection_response(empty).expect("an empty page should decode");
    assert!(page.items.is_empty());

    let bad = "{\"entity\":\"collection\",\"count\":1,\"items\":[{\"id\":\"order_x\"}]}";
    match Order::decode_collection_response(bad) {
        Err(RazorpayError::SerializationError(_)) => {}
        _ => panic!("an item that is not an order defeats the page"),
    }
}

#[test]
fn an_expanded_order_decodes_its_payments_in_place() {
    let body = concat_payment_order_body();
    let order = Order::decode_response(&body).expect("an expanded order should decode");
    let page = order.payments.expect("the expanded payments travel");
    assert_eq!(page.count, 1);
    assert_eq!(page.items.len(), 1);
    assert_eq!(page.items[0].id.as_str(), "pay_1");
    assert_eq!(page.items[0].amount, 199);
    assert_eq!(page.items[0].captured, true);
}

fn concat_payment_order_body() -> String {
    let payment = "{\"entity\":\"payment\",\"id\":\"pay_1\",\"amount\":199,\"currency\":\"INR\",\"status\":\"captured\",\"method\":\"upi\",\"order_id\":\"order_abc\",\"description\":null,\"international\":false,\"refund_status\":null,\"amount_refunded\":0,\"captured\":true,\"email\":\"a@b.c\",\"contact\":\"9000000000\",\"fee\":2,\"tax\":0,\"notes\":[],\"created_at\":9,\"vpa\":\"a@upi\"}";
    let mut body = String::from(
        "{\"id\":\"order_abc\",\"entity\":\"order\",\"amount\":199,\"amount_paid\":199,\"amount_due\":0,\"currency\":\"INR\",\"receipt\":null,\"status\":\"paid\",\"notes\":[],\"attempts\":1,\"created_at\":7,\"payments\":{\"entity\":\"collection\",\"count\":1,\"items\":[",
    );
    body.push_str(payment);
    body.push_str("]}}");
    body
}

#[test]
fn order_requests_use_their_paths() {
    let id = OrderId::parse("order_abc").expect("a prefixed id parses");
    assert_eq!(Order::fetch_request(&id).url, "/orders/order_abc");
    assert_eq!(Order::list_payments_request(&id).url, "/orders/order_abc/payments");
    let notes = vec![(String::from("a"), String::from("b"))];
    let rp = Order::update_request(&id, &notes);
    assert_eq!(rp.url, "/orders/order_abc");
    assert_eq!(json_to_text(&rp.data.expect("an update carries notes")), "{\"notes\":{\"a\":\"b\"}}");
    let f = Filter { from: Some(10), to: None, count: Some(3), skip: None };
    let listing = ListOrders {
        filter: Some(f),
        authorized: Some(true),
        receipt: None,
        expand: &[OrderExpand::Payments],
    };
    let rp = Order::list_request(Some(&listing));
    assert_eq!(
        json_to_text(&rp.data.expect("the listing parameters travel")),
        "{\"from\":10,\"count\":3,\"authorized\":1,\"expand[]\":[\"payments\"]}"
    );
}
