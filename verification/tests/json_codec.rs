use rusty_razorpay::json::{json_to_text, JsonValue};
use rusty_razorpay::parse::parse_json;

fn text_of(v: &JsonValue) -> String {
    json_to_text(v)
}

fn roundtrip(s: &str) -> String {
    let v = parse_json(s).expect("should parse");
    text_of(&v)
}

#[test]
fn prints_scalars() {
    assert_eq!(text_of(&JsonValue::Null), "null");
    assert_eq!(text_of(&JsonValue::Bool(true)), "true");
    assert_eq!(text_of(&JsonValue::Bool(false)), "false");
    assert_eq!(text_of(&JsonValue::Num(String::from("42"))), "42");
    assert_eq!(text_of(&JsonValue::Str(String::from("hi"))), "\"hi\"");
}

#[test]
fn prints_nested_structures() {
    let v = JsonValue::Obj(vec![
        (String::from("a"), JsonValue::Arr(vec![JsonValue::Num(String::from("1")), JsonValue::Null])),
        (String::from("b"), JsonValue::Obj(vec![])),
    ]);
    assert_eq!(text_of(&v), "{\"a\":[1,null],\"b\":{}}");
}

#[test]
fn escapes_strings_when_printing() {
    let v = JsonValue::Str(String::from("a\"b\\c\nd\te\u{1}"));
    assert_eq!(text_of(&v), "\"a\\\"b\\\\c\\nd\\te\\u0001\"");
}

#[test]
fn parses_scalars() {
    assert_eq!(roundtrip("null"), "null");
    assert_eq!(roundtrip("true"), "true");
    assert_eq!(roundtrip("false"), "false");
    assert_eq!(roundtrip("0"), "0");
    assert_eq!(roundtrip("-12"), "-12");
    assert_eq!(roundtrip("3.5e-2"), "3.5e-2");
    assert_eq!(roundtrip("\"x\""), "\"x\"");
}

#[test]
fn parses_with_whitespace() {
    assert_eq!(roundtrip("  { \"a\" : [ 1 , 2 ] }  "), "{\"a\":[1,2]}");
    assert_eq!(roundtrip("[ ]"), "[]");
    assert_eq!(roundtrip("{ }"), "{}");
}

#[test]
fn parses_escapes() {
    assert_eq!(roundtrip("\"a\\\"b\""), "\"a\\\"b\"");
    assert_eq!(roundtrip("\"\\u0041\""), "\"A\"");
    assert_eq!(roundtrip("\"\\n\\t\\r\\b\\f\\/\\\\\""), "\"\\n\\t\\r\\b\\f/\\\\\"");
}

#[test]
fn rejects_malformed_texts() {
    for s in [
        "", "nul", "tru", "01", "1.", "1e", "+1", "\"unterminated", "\"bad\\q\"",
        "\"\\u12\"", "\"\\ud800\"", "[1,]", "[1 2]", "{\"a\"}", "{\"a\":}", "{a:1}",
        "{\"a\":1,}", "[1]]", "{} {}", "1 2",
    ] {
        assert!(parse_json(s).is_none(), "should reject {:?}", s);
    }
    let ctrl = "\"a\u{1}b\"";
    assert!(parse_json(ctrl).is_none(), "raw control characters are rejected");
}

#[test]
fn keeps_number_lexemes_exactly() {
    assert_eq!(roundtrip("[0.10, -0.5E+3, 100]"), "[0.10,-0.5E+3,100]");
}

#[test]
fn member_lookup_takes_first_occurrence() {
    let v = parse_json("{\"a\":1,\"b\":2,\"a\":3}").expect("should parse");
    let got = v.get_member("a").expect("member should be there");
    assert_eq!(text_of(got), "1");
    assert!(v.get_member("c").is_none());
}

#[test]
fn clones_deeply() {
    let v = parse_json("{\"a\":[1,{\"b\":\"c\"}]}").expect("should parse");
    let w = v.clone();
    assert_eq!(text_of(&v), text_of(&w));
}
