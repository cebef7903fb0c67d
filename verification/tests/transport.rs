use rusty_razorpay::api::{Api, ApiOptions, HttpMethod, RequestParams};
use rusty_razorpay::json::JsonValue;
use rusty_razorpay::Razorpay;

fn example_api() -> Api {
    Api::new(ApiOptions {
        user_agent: String::from("tester"),
        base_url: String::from("https://api.example.com"),
        key_id: String::from("key_id"),
        key_secret: String::from("key_secret"),
    })
}

#[test]
fn a_get_reaches_the_versioned_path_with_its_query_and_credentials() {
    let api = example_api();
    let params = RequestParams {
        url: String::from("/orders"),
        version: None,
        data: Some(JsonValue::Obj(vec![(
            String::from("count"),
            JsonValue::Num(String::from("10")),
        )])),
    };
    let pr = api.prepare_get(&params).expect("a scalar payload should encode");
    assert_eq!(pr.method, HttpMethod::Get);
    assert_eq!(pr.url, "https://api.example.com/v1/orders");
    assert_eq!(pr.query, vec![(String::from("count"), String::from("10"))]);
    assert_eq!(pr.body, None);
    assert_eq!(pr.key_id, "key_id");
    assert_eq!(pr.key_secret, "key_secret");
}

#[test]
fn a_get_without_payload_has_no_query() {
    let api = example_api();
    let params = RequestParams { url: String::from("/orders/order_x"), version: None, data: None };
    let pr = api.prepare_get(&params).expect("no payload always encodes");
    assert_eq!(pr.url, "https://api.example.com/v1/orders/order_x");
    assert!(pr.query.is_empty());
}

#[test]
fn a_get_with_a_nested_payload_fails_before_anything_is_sent() {
    let api = example_api();
    let params = RequestParams {
        url: String::from("/orders"),
        version: None,
        data: Some(JsonValue::Obj(vec![(String::from("notes"), JsonValue::Obj(vec![]))])),
    };
    assert!(api.prepare_get(&params).is_err());
}

#[test]
fn a_version_override_replaces_the_default_segment() {
    let api = example_api();
    let params = RequestParams {
        url: String::from("/accounts/acc_x"),
        version: Some(String::from("v2")),
        data: None,
    };
    assert_eq!(api.get_entity_url(&params), "https://api.example.com/v2/accounts/acc_x");
}

#[test]
fn a_post_carries_the_payload_as_its_json_body() {
    let api = example_api();
    let params = RequestParams {
        url: String::from("/orders"),
        version: None,
        data: Some(JsonValue::Obj(vec![
            (String::from("amount"), JsonValue::Num(String::from("199"))),
            (String::from("currency"), JsonValue::Str(String::from("INR"))),
        ])),
    };
    let pr = api.prepare_post(&params);
    assert_eq!(pr.method, HttpMethod::Post);
    assert_eq!(pr.url, "https://api.example.com/v1/orders");
    assert_eq!(pr.body.as_deref(), Some("{\"amount\":199,\"currency\":\"INR\"}"));
    assert!(pr.query.is_empty());
}

#[test]
fn put_patch_and_delete_use_their_verbs() {
    let api = example_api();
    let params = RequestParams { url: String::from("/items/item_x"), version: None, data: None };
    assert_eq!(api.prepare_put(&params).method, HttpMethod::Put);
    assert_eq!(api.prepare_patch(&params).method, HttpMethod::Patch);
    let pr = api.prepare_delete(&params).expect("no payload always encodes");
    assert_eq!(pr.method, HttpMethod::Delete);
    assert_eq!(pr.body, None);
    assert!(pr.query.is_empty());
}

#[test]
fn a_delete_encodes_its_payload_like_a_get() {
    let api = example_api();
    let params = RequestParams {
        url: String::from("/items/item_x"),
        version: None,
        data: Some(JsonValue::Obj(vec![(
            String::from("force"),
            JsonValue::Bool(true),
        )])),
    };
    let pr = api.prepare_delete(&params).expect("a scalar payload should encode");
    assert_eq!(pr.method, HttpMethod::Delete);
    assert_eq!(pr.query, vec![(String::from("force"), String::from("true"))]);
    assert_eq!(pr.body, None);

    let nested = RequestParams {
        url: String::from("/items/item_x"),
        version: None,
        data: Some(JsonValue::Obj(vec![(String::from("notes"), JsonValue::Obj(vec![]))])),
    };
    assert!(api.prepare_delete(&nested).is_err());
}

#[test]
fn the_client_is_configured_for_the_production_host() {
    let rp = Razorpay::new("key_id", "key_secret");
    assert_eq!(rp.api.base_url, "https://api.razorpay.com");
    assert_eq!(rp.api.version, "v1");
    assert_eq!(rp.api.key_id, "key_id");
    assert_eq!(rp.api.user_agent, format!("rusty-razorpay@{}", rusty_razorpay::VERSION));
}
