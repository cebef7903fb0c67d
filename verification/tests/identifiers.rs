use rusty_razorpay::common::{Currency, Filter};
use rusty_razorpay::entity::OrderEntity;
use rusty_razorpay::json::json_to_text;
use rusty_razorpay::num::{i64_to_string, parse_i64, parse_u64, u64_to_string};
use rusty_razorpay::util::{debug_option, display_option};
use rusty_razorpay::{CustomerId, OrderId, PaymentId};

#[test]
fn ids_accept_exactly_their_prefix() {
    let id = OrderId::parse("order_abc123").expect("the order prefix parses");
    assert_eq!(id.as_str(), "order_abc123");
    assert_eq!(OrderId::prefix(), "order_");
    assert!(OrderId::parse("pay_abc").is_err());
    assert!(OrderId::parse("").is_err());
    assert!(PaymentId::parse("pay_x").is_ok());
    assert!(CustomerId::parse("cust_x").is_ok());
    let err = CustomerId::parse("x").expect_err("a bare token is refused");
    assert_eq!(err.message(), "invalid `CustomerId`, expected id to start with `cust_`");
}

#[test]
fn entities_accept_exactly_their_tag() {
    let e = OrderEntity::parse("order").expect("the tag parses");
    assert_eq!(e.as_str(), "order");
    let err = OrderEntity::parse("payment").expect_err("a foreign tag is refused");
    assert_eq!(err.message(), "invalid `OrderEntity`, expected `order`");
}

#[test]
fn currencies_round_trip_their_codes() {
    assert_eq!(Currency::INR.as_str(), "INR");
    assert_eq!(Currency::parse("INR"), Some(Currency::INR));
    assert_eq!(Currency::parse("USD"), Some(Currency::USD));
    assert_eq!(Currency::parse("TRY"), Some(Currency::TRY));
    assert_eq!(Currency::parse("XXX"), None);
    assert_eq!(Currency::default(), Currency::INR);
}

#[test]
fn decimal_rendering_and_reading() {
    assert_eq!(u64_to_string(0), "0");
    assert_eq!(u64_to_string(1234567890), "1234567890");
    assert_eq!(u64_to_string(u64::MAX), "18446744073709551615");
    assert_eq!(i64_to_string(-42), "-42");
    assert_eq!(i64_to_string(i64::MIN), "-9223372036854775808");
    assert_eq!(parse_u64("0"), Some(0));
    assert_eq!(parse_u64("18446744073709551615"), Some(u64::MAX));
    assert_eq!(parse_u64("18446744073709551616"), None);
    assert_eq!(parse_u64(""), None);
    assert_eq!(parse_u64("12a"), None);
    assert_eq!(parse_i64("-9223372036854775808"), Some(i64::MIN));
    assert_eq!(parse_i64("9223372036854775808"), None);
    assert_eq!(parse_i64("-0"), Some(0));
}

#[test]
fn optional_fields_render_for_error_text() {
    assert_eq!(display_option(Some(&String::from("x"))), "x");
    assert_eq!(display_option(None), "none");
    let o = vec![
        (String::from("a"), String::from("1")),
        (String::from("b"), String::from("2")),
    ];
    assert_eq!(debug_option(Some(&o)), "{a: 1, b: 2}");
    assert_eq!(debug_option(Some(&vec![])), "{}");
    assert_eq!(debug_option(None), "none");
}

#[test]
fn a_filter_serializes_only_its_present_fields() {
    let f = Filter { from: None, to: Some(99), count: None, skip: Some(5) };
    assert_eq!(json_to_text(&f.to_json()), "{\"to\":99,\"skip\":5}");
    let empty = Filter::default();
    assert_eq!(json_to_text(&empty.to_json()), "{}");
}
