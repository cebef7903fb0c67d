use rusty_razorpay::error::RazorpayError;
use rusty_razorpay::json::JsonValue;
use rusty_razorpay::query::make_serializable;

fn obj(members: Vec<(&str, JsonValue)>) -> JsonValue {
    JsonValue::Obj(members.into_iter().map(|(k, v)| (String::from(k), v)).collect())
}

#[test]
fn encodes_one_pair_per_scalar_field() {
    let payload = obj(vec![
        ("count", JsonValue::Num(String::from("10"))),
        ("name", JsonValue::Str(String::from("x"))),
        ("flag", JsonValue::Bool(true)),
        ("off", JsonValue::Bool(false)),
    ]);
    let pairs = make_serializable(&payload).expect("scalars should encode");
    assert_eq!(
        pairs,
        vec![
            (String::from("count"), String::from("10")),
            (String::from("name"), String::from("x")),
            (String::from("flag"), String::from("true")),
            (String::from("off"), String::from("false")),
        ]
    );
}

#[test]
fn encodes_one_pair_per_array_element() {
    let payload = obj(vec![(
        "expand[]",
        JsonValue::Arr(vec![
            JsonValue::Str(String::from("card")),
            JsonValue::Str(String::from("emi")),
        ]),
    )]);
    let pairs = make_serializable(&payload).expect("scalar arrays should encode");
    assert_eq!(
        pairs,
        vec![
            (String::from("expand[]"), String::from("card")),
            (String::from("expand[]"), String::from("emi")),
        ]
    );
}

#[test]
fn empty_record_encodes_to_no_pairs() {
    let pairs = make_serializable(&obj(vec![])).expect("empty record should encode");
    assert!(pairs.is_empty());
}

#[test]
fn rejects_nested_objects() {
    let payload = obj(vec![("notes", obj(vec![("a", JsonValue::Str(String::from("b")))]))]);
    match make_serializable(&payload) {
        Err(RazorpayError::SerializationError(_)) => {}
        _ => panic!("nested objects must fail with a serialization error"),
    }
}

#[test]
fn rejects_arrays_of_objects() {
    let payload = obj(vec![("items", JsonValue::Arr(vec![obj(vec![])]))]);
    match make_serializable(&payload) {
        Err(RazorpayError::SerializationError(_)) => {}
        _ => panic!("arrays of objects must fail with a serialization error"),
    }
}

#[test]
fn rejects_non_object_top_level() {
    match make_serializable(&JsonValue::Arr(vec![])) {
        Err(RazorpayError::SerializationError(_)) => {}
        _ => panic!("a non-object payload must fail with a serialization error"),
    }
    match make_serializable(&JsonValue::Num(String::from("1"))) {
        Err(RazorpayError::SerializationError(_)) => {}
        _ => panic!("a number payload must fail with a serialization error"),
    }
}

#[test]
fn rejects_null_members() {
    let payload = obj(vec![("gone", JsonValue::Null)]);
    assert!(make_serializable(&payload).is_err());
}
