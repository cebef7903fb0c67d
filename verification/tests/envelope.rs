use rusty_razorpay::api::decode_response;
use rusty_razorpay::error::RazorpayError;
use rusty_razorpay::json::json_to_text;

#[test]
fn error_shaped_body_decodes_to_the_error() {
    let body = "{\"error\":{\"code\":\"BAD_REQUEST_ERROR\",\"description\":\"nope\"}}";
    match decode_response(body) {
        Err(RazorpayError::ApiError(e)) => {
            assert_eq!(e.code, "BAD_REQUEST_ERROR");
            assert_eq!(e.description, "nope");
            assert_eq!(e.source, None);
            assert_eq!(e.step, None);
            assert_eq!(e.reason, None);
            assert_eq!(e.metadata, None);
            assert_eq!(e.field, None);
        }
        _ => panic!("an error body must decode to the error variant"),
    }
}

#[test]
fn error_body_with_extra_fields_still_decodes_to_the_error() {
    let body = "{\"error\":{\"code\":\"GATEWAY_ERROR\",\"description\":\"d\",\"source\":\"gateway\",\"step\":\"payment_authorization\",\"reason\":\"r\",\"metadata\":{\"payment_id\":\"pay_x\"},\"field\":\"amount\"},\"unrelated\":1}";
    match decode_response(body) {
        Err(RazorpayError::ApiError(e)) => {
            assert_eq!(e.code, "GATEWAY_ERROR");
            assert_eq!(e.source.as_deref(), Some("gateway"));
            assert_eq!(
                e.metadata,
                Some(vec![(String::from("payment_id"), String::from("pay_x"))])
            );
            assert_eq!(e.field.as_deref(), Some("amount"));
        }
        _ => panic!("an error body must decode to the error variant"),
    }
}

#[test]
fn error_member_with_null_context_fields_decodes() {
    let body = "{\"error\":{\"code\":\"C\",\"description\":\"d\",\"source\":null,\"metadata\":null}}";
    match decode_response(body) {
        Err(RazorpayError::ApiError(e)) => {
            assert_eq!(e.source, None);
            assert_eq!(e.metadata, None);
        }
        _ => panic!("null context fields count as absent"),
    }
}

#[test]
fn success_shaped_body_decodes_to_the_payload() {
    let body = "{\"id\":\"order_x\",\"amount\":100}";
    match decode_response(body) {
        Ok(v) => assert_eq!(json_to_text(&v), "{\"id\":\"order_x\",\"amount\":100}"),
        Err(_) => panic!("a body without an error member is a success"),
    }
}

#[test]
fn non_object_success_bodies_pass_through() {
    match decode_response("[1,2]") {
        Ok(v) => assert_eq!(json_to_text(&v), "[1,2]"),
        Err(_) => panic!("an array body is a success payload"),
    }
}

#[test]
fn malformed_error_member_is_a_serialization_failure() {
    let body = "{\"error\":{\"code\":\"C\"}}";
    match decode_response(body) {
        Err(RazorpayError::SerializationError(_)) => {}
        _ => panic!("an error member without a description is neither shape"),
    }
}

#[test]
fn unparseable_body_is_a_serialization_failure() {
    match decode_response("not json") {
        Err(RazorpayError::SerializationError(_)) => {}
        _ => panic!("a non-JSON body must fail with a serialization error"),
    }
}

#[test]
fn error_messages_render_each_field() {
    let body = "{\"error\":{\"code\":\"C\",\"description\":\"d\"}}";
    match decode_response(body) {
        Err(e @ RazorpayError::ApiError(_)) => {
            let m = e.message();
            assert!(m.starts_with("API Error: Razorpay Error: C: d"));
            assert!(m.contains("\nmetadata: none"));
        }
        _ => panic!("expected the error variant"),
    }
    let te = RazorpayError::ReqwestError(String::from("connection refused"));
    assert_eq!(te.message(), "Reqwest Error: connection refused");
    let se = RazorpayError::SerializationError(String::from("bad body"));
    assert_eq!(se.message(), "Serialization Error: bad body");
}
