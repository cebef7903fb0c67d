use rusty_razorpay::account::{
    Account, BusinessCategory, BusinessSubCategory, BusinessType, CreateAccount,
    CreateAccountAddress, CreateAccountAddresses, CreateAccountProfile,
};
use rusty_razorpay::common::{Country, Currency};
use rusty_razorpay::customer::{CreateCustomer, Customer, ListCustomers, UpdateCustomer};
use rusty_razorpay::dispute::{
    ContestDispute, ContestDisputeAction, ContestDisputeOtherEvidence, Dispute,
};
use rusty_razorpay::invoice::{
    CreateInvoice, CreateOrUpdateInvoiceCustomer, CreateOrUpdateInvoiceLineItem,
    CreateOrUpdateInvoiceType, Invoice, InvoiceNotifyMedium, ListInvoices,
};
use rusty_razorpay::item::{CreateItem, Item, ItemType};
use rusty_razorpay::json::json_to_text;
use rusty_razorpay::payment::{CapturePayment, Payment, PaymentExpand, PaymentMethod, PaymentStatus};
use rusty_razorpay::refund::{CreateRefund, Refund, RefundSpeed, RefundStatus};
use rusty_razorpay::settlement::{
    CreateInstantSettlement, FetchRecon, InstantSettlement, SettlementRecon,
};
use rusty_razorpay::subscription::{
    CreateSubscription, CreateSubscriptionAddon, CreateSubscriptionAddonItem, Subscription,
    SubscriptionChangeSchedule, UpdateSubscription,
};
use rusty_razorpay::webhook::{CreateWebhook, EventType, UpdateWebhook, Webhook};
use rusty_razorpay::{
    AccountId, DisputeId, InstantSettlementId, InvoiceId, PaymentId, PlanId, RefundId,
    SubscriptionId,
};

#[test]
fn payment_requests_use_their_paths_and_bodies() {
    let pid = PaymentId::parse("pay_1").unwrap();
    let rid = RefundId::parse("rfnd_1").unwrap();
    let capture = CapturePayment { amount: 100, currency: Currency::INR };
    let rp = Payment::capture_request(&pid, &capture);
    assert_eq!(rp.url, "/payments/pay_1/capture");
    assert_eq!(json_to_text(&rp.data.unwrap()), "{\"amount\":100,\"currency\":\"INR\"}");

    let rp = Payment::fetch_request(&pid, &[PaymentExpand::Card, PaymentExpand::Upi]);
    assert_eq!(rp.url, "/payments/pay_1");
    assert_eq!(json_to_text(&rp.data.unwrap()), "{\"expand[]\":[\"card\",\"upi\"]}");

    let notes = vec![(String::from("k"), String::from("v"))];
    let rp = Payment::update_request(&pid, &notes);
    assert_eq!(rp.url, "/payments/pay_1");
    assert_eq!(json_to_text(&rp.data.unwrap()), "{\"notes\":{\"k\":\"v\"}}");

    let refund = CreateRefund {
        amount: Some(50),
        speed: Some(RefundSpeed::Optimum),
        notes: None,
        receipt: Some("r9"),
    };
    let rp = Payment::refund_request(&pid, &refund);
    assert_eq!(rp.url, "/payments/pay_1/refund");
    assert_eq!(
        json_to_text(&rp.data.unwrap()),
        "{\"amount\":50,\"speed\":\"optimum\",\"receipt\":\"r9\"}"
    );

    assert_eq!(Payment::fetch_refund_request(&pid, &rid).url, "/payments/pay_1/refunds/rfnd_1");
    assert_eq!(Payment::fetch_card_request(&pid).url, "/payments/pay_1/card");
    assert_eq!(Payment::list_refunds_request(&pid, None).url, "/payments/pay_1/refunds");
    assert_eq!(Payment::list_request(None).url, "/payments");
}

#[test]
fn refund_requests_use_their_paths() {
    let rid = RefundId::parse("rfnd_2").unwrap();
    assert_eq!(Refund::fetch_request(&rid).url, "/refunds/rfnd_2");
    assert_eq!(Refund::list_request(None).url, "/refunds");
    let notes = vec![(String::from("why"), String::from("dup"))];
    let rp = Refund::update_request(&rid, &notes);
    assert_eq!(rp.url, "/refunds/rfnd_2");
    assert_eq!(json_to_text(&rp.data.unwrap()), "{\"notes\":{\"why\":\"dup\"}}");
}

#[test]
fn subscription_requests_use_their_paths_and_flags() {
    let sid = SubscriptionId::parse("sub_1").unwrap();
    assert_eq!(Subscription::fetch_request(&sid).url, "/subscription/sub_1");
    let rp = Subscription::cancel_request(&sid, Some(true));
    assert_eq!(rp.url, "/subscription/sub_1/cancel");
    assert_eq!(json_to_text(&rp.data.unwrap()), "{\"cancel_at_cycle_end\":1}");
    let rp = Subscription::cancel_request(&sid, None);
    assert_eq!(json_to_text(&rp.data.unwrap()), "{\"cancel_at_cycle_end\":0}");
    assert_eq!(
        Subscription::fetch_pending_update_request(&sid).url,
        "/subscriptions/sub_1/retrieve_scheduled_changes"
    );
    assert_eq!(
        Subscription::cancel_scheduled_update_request(&sid).url,
        "/subscriptions/sub_1/cancel_scheduled_changes"
    );
    let rp = Subscription::pause_request(&sid);
    assert_eq!(rp.url, "/subscriptions/sub_1/pause");
    assert_eq!(json_to_text(&rp.data.unwrap()), "{\"pause_at\":\"now\"}");
    let rp = Subscription::resume_request(&sid);
    assert_eq!(rp.url, "/subscriptions/sub_1/resume");
    assert_eq!(json_to_text(&rp.data.unwrap()), "{\"resume_at\":\"now\"}");
}

#[test]
fn settlement_requests_use_their_paths_and_windows() {
    let recon = FetchRecon { year: 2023, month: 9, day: None, count: Some(2), skip: None };
    let rp = SettlementRecon::fetch_request(&recon);
    assert_eq!(rp.url, "/settlements/recon/combined");
    assert_eq!(json_to_text(&rp.data.unwrap()), "{\"year\":2023,\"month\":9,\"count\":2}");

    let create = CreateInstantSettlement {
        amount: 20000,
        settle_full_balance: Some(false),
        description: None,
        notes: None,
    };
    let rp = InstantSettlement::create_request(&create);
    assert_eq!(rp.url, "/settlements/ondemand");
    assert_eq!(
        json_to_text(&rp.data.unwrap()),
        "{\"amount\":20000,\"settle_full_balance\":false}"
    );

    let rp = InstantSettlement::list_request(true);
    assert_eq!(json_to_text(&rp.data.unwrap()), "{\"expand[]\":\"ondemand_payouts\"}");
    assert!(InstantSettlement::list_request(false).data.is_none());
    let iid = InstantSettlementId::parse("setlod_1").unwrap();
    assert_eq!(
        InstantSettlement::fetch_request(&iid, false).url,
        "/settlements/ondemand/setlod_1"
    );
}

#[test]
fn customer_and_item_requests_serialize_their_parameters() {
    let create = CreateCustomer {
        name: "Gaurav",
        contact: Some("9123456789"),
        email: None,
        fail_existing: Some(false),
        gstin: None,
        notes: None,
    };
    let rp = Customer::create_request(&create);
    assert_eq!(rp.url, "/customers");
    assert_eq!(
        json_to_text(&rp.data.unwrap()),
        "{\"name\":\"Gaurav\",\"contact\":\"9123456789\",\"fail_existing\":0}"
    );

    let update = UpdateCustomer { name: None, email: Some("g@example.com"), contact: None };
    let cid = rusty_razorpay::CustomerId::parse("cust_1").unwrap();
    let rp = Customer::update_request(&cid, &update);
    assert_eq!(rp.url, "/customers/cust_1");
    assert_eq!(json_to_text(&rp.data.unwrap()), "{\"email\":\"g@example.com\"}");

    let rp = Customer::list_request(Some(&ListCustomers { count: Some(10), skip: None }));
    assert_eq!(json_to_text(&rp.data.unwrap()), "{\"count\":10}");

    let item = CreateItem {
        name: "widget",
        description: None,
        amount: 500,
        currency: Currency::INR,
    };
    let rp = Item::create_request(&item);
    assert_eq!(rp.url, "/items");
    assert_eq!(
        json_to_text(&rp.data.unwrap()),
        "{\"name\":\"widget\",\"amount\":500,\"currency\":\"INR\"}"
    );
}

#[test]
fn webhook_requests_reach_the_partner_api() {
    let aid = AccountId::parse("acc_1").unwrap();
    let create = CreateWebhook {
        url: "https://example.com/hook",
        alert_email: None,
        secret: Some("whsec_test"),
        events: &[EventType::PaymentCaptured, EventType::OrderPaid],
    };
    let rp = Webhook::create_request(&aid, &create);
    assert_eq!(rp.url, "/accounts/acc_1/webhooks");
    assert_eq!(rp.version.as_deref(), Some("v2"));
    assert_eq!(
        json_to_text(&rp.data.unwrap()),
        "{\"url\":\"https://example.com/hook\",\"alert_email\":null,\"secret\":\"whsec_test\",\"events\":[\"payment.captured\",\"order.paid\"]}"
    );

    let rp = Webhook::fetch_request(&aid, "wh_1");
    assert_eq!(rp.url, "/accounts/acc_1/webhooks/wh_1");
    assert!(rp.version.is_none());

    let update = UpdateWebhook { url: None, events: &[EventType::RefundCreated] };
    let rp = Webhook::update_request(&aid, "wh_1", &update);
    assert_eq!(rp.version.as_deref(), Some("v2"));
    assert_eq!(
        json_to_text(&rp.data.unwrap()),
        "{\"url\":null,\"events\":[\"refund.created\"]}"
    );

    let rp = Webhook::delete_request(&aid, "wh_1");
    assert_eq!(rp.url, "/accounts/acc_1/webhooks/wh_1");
    assert!(rp.data.is_none());
}

#[test]
fn invoice_requests_serialize_their_documents() {
    let create = CreateInvoice {
        type_: CreateOrUpdateInvoiceType::Invoice,
        description: Some("october"),
        draft: Some(true),
        customer_id: None,
        customer: Some(CreateOrUpdateInvoiceCustomer {
            name: "Gaurav",
            email: None,
            contact: None,
            billing_address: None,
            shipping_address: None,
        }),
        line_items: Some(vec![CreateOrUpdateInvoiceLineItem {
            item_id: None,
            name: Some("widget"),
            description: None,
            amount: Some(100),
            currency: Some(Currency::INR),
            quantity: Some(2),
        }]),
        expire_by: None,
        sms_notify: Some(false),
        email_notify: None,
        partial_payment: None,
        currency: Some(Currency::INR),
        notes: None,
    };
    let rp = Invoice::create_request(&create);
    assert_eq!(rp.url, "/invoices");
    assert_eq!(
        json_to_text(&rp.data.unwrap()),
        "{\"type\":\"invoice\",\"description\":\"october\",\"draft\":1,\"customer\":{\"name\":\"Gaurav\"},\"line_items\":[{\"name\":\"widget\",\"amount\":100,\"currency\":\"INR\",\"quantity\":2}],\"sms_notify\":0,\"currency\":\"INR\"}"
    );

    let iid = InvoiceId::parse("inv_1").unwrap();
    assert_eq!(Invoice::issue_request(&iid).url, "/invoices/inv_1/issue");
    assert_eq!(Invoice::cancel_request(&iid).url, "/invoices/inv_1/cancel");
    assert_eq!(
        Invoice::notify_request(&iid, InvoiceNotifyMedium::Sms).url,
        "/invoices/inv_1/notify_by/sms"
    );
    let listing = ListInvoices { payment_id: None, receipt: Some("r1"), customer_id: None };
    let rp = Invoice::list_request(Some(&listing));
    assert_eq!(
        json_to_text(&rp.data.unwrap()),
        "{\"payment_id\":null,\"receipt\":\"r1\",\"customer_id\":null}"
    );
}

#[test]
fn subscription_documents_serialize_in_order() {
    let plan = PlanId::parse("plan_1").unwrap();
    let create = CreateSubscription {
        plan_id: &plan,
        total_count: 12,
        quantity: None,
        start_at: None,
        expire_by: None,
        customer_notify: Some(true),
        addons: &[CreateSubscriptionAddon {
            item: CreateSubscriptionAddonItem {
                name: "setup",
                amount: 50,
                currency: Currency::INR,
            },
        }],
        offer_id: None,
        notes: None,
        notify_info: None,
    };
    let rp = Subscription::create_request(&create);
    assert_eq!(rp.url, "/subscriptions");
    assert_eq!(
        json_to_text(&rp.data.unwrap()),
        "{\"plan_id\":\"plan_1\",\"total_count\":12,\"customer_notify\":1,\"addons\":[{\"item\":{\"name\":\"setup\",\"amount\":50,\"currency\":\"INR\"}}]}"
    );

    let update = UpdateSubscription {
        plan_id: None,
        offer_id: None,
        quantity: Some(2),
        remaining_count: None,
        start_at: None,
        schedule_change_at: SubscriptionChangeSchedule::CycleEnd,
        customer_notify: None,
    };
    let sid = rusty_razorpay::SubscriptionId::parse("sub_2").unwrap();
    let rp = Subscription::update_request(&sid, &update);
    assert_eq!(rp.url, "/subscriptions/sub_2");
    assert_eq!(
        json_to_text(&rp.data.unwrap()),
        "{\"quantity\":2,\"schedule_change_at\":\"cycle_end\"}"
    );
}

#[test]
fn account_creation_serializes_its_profile() {
    let create = CreateAccount {
        email: "m@example.com",
        phone: 919876543210,
        legal_business_name: "Acme",
        customer_facing_business_name: None,
        business_type: BusinessType::PrivateLimited,
        reference_id: None,
        profile: Some(CreateAccountProfile {
            category: BusinessCategory::Ecommerce,
            subcategory: BusinessSubCategory::FashionAndLifestyle,
            business_model: "b2c",
            addresses: CreateAccountAddresses {
                operation: None,
                registered: CreateAccountAddress {
                    street1: "1 Main",
                    street2: "Floor 2",
                    city: "Pune",
                    state: "MH",
                    postal_code: 41100,
                    country: Country::IN,
                },
            },
        }),
        legal_info: None,
        brand: None,
        notes: None,
        contact_name: "G",
        contact_info: None,
        apps: None,
    };
    let rp = Account::create_request(&create);
    assert_eq!(rp.url, "/accounts");
    assert_eq!(rp.version.as_deref(), Some("v2"));
    assert_eq!(
        json_to_text(&rp.data.unwrap()),
        "{\"email\":\"m@example.com\",\"phone\":919876543210,\"legal_business_name\":\"Acme\",\"business_type\":\"private_limited\",\"profile\":{\"category\":\"ecommerce\",\"subcategory\":\"fashion_and_lifestyle\",\"business_model\":\"b2c\",\"addresses\":{\"registered\":{\"street1\":\"1 Main\",\"street2\":\"Floor 2\",\"city\":\"Pune\",\"state\":\"MH\",\"postal_code\":41100,\"country\":\"IN\"}}},\"contact_name\":\"G\"}"
    );
}

#[test]
fn dispute_contests_serialize_their_evidence() {
    let did = DisputeId::parse("disp_1").unwrap();
    assert_eq!(Dispute::accept_request(&did).url, "/disputes/disp_1/accept");
    let contest = ContestDispute {
        amount: 5000,
        summary: "goods delivered",
        shipping_proof: Some(&["doc_1", "doc_2"]),
        billing_proof: None,
        cancellation_proof: None,
        customer_communication: None,
        proof_of_service: None,
        explanation_letter: None,
        refund_confirmation: None,
        access_activity_log: None,
        refund_cancellation_policy: None,
        term_and_conditions: None,
        others: None,
        action: ContestDisputeAction::Draft,
    };
    let rp = Dispute::contest_request(&did, &contest);
    assert_eq!(rp.url, "/disputes/disp_1/contest");
    assert_eq!(
        json_to_text(&rp.data.unwrap()),
        "{\"amount\":5000,\"summary\":\"goods delivered\",\"shipping_proof\":[\"doc_1\",\"doc_2\"],\"action\":\"draft\"}"
    );
}

#[test]
fn a_payment_body_decodes_with_its_exact_field_values() {
    let body = "{\"entity\":\"payment\",\"id\":\"pay_9\",\"amount\":500,\"currency\":\"INR\",\"status\":\"authorized\",\"method\":\"card\",\"order_id\":\"order_9\",\"description\":\"d\",\"international\":false,\"refund_status\":null,\"amount_refunded\":0,\"captured\":false,\"email\":\"x@y.z\",\"contact\":null,\"fee\":10,\"tax\":1,\"notes\":{\"a\":\"b\"},\"created_at\":11,\"card_id\":\"card_7\",\"card\":{\"entity\":\"card\",\"id\":\"card_7\",\"name\":\"N\",\"last4\":\"4242\",\"network\":\"Visa\",\"type\":\"credit\",\"issuer\":null,\"emi\":false,\"sub_type\":\"customer\"}}";
    let p = rusty_razorpay::payment::Payment::decode_response(body).expect("should decode");
    assert_eq!(p.id.as_str(), "pay_9");
    assert_eq!(p.amount, 500);
    assert_eq!(p.status, PaymentStatus::Authorized);
    assert_eq!(p.method, PaymentMethod::Card);
    assert_eq!(p.order_id.as_str(), "order_9");
    assert_eq!(p.description.as_deref(), Some("d"));
    assert_eq!(p.refund_status, None);
    assert_eq!(p.notes, vec![(String::from("a"), String::from("b"))]);
    let card = p.card.expect("the card travels");
    assert_eq!(card.id.as_str(), "card_7");
    assert_eq!(card.last4, "4242");
    assert!(p.upi.is_none());
    assert!(p.offers.is_none());

    let bad = "{\"entity\":\"payment\",\"id\":\"pay_9\"}";
    match rusty_razorpay::payment::Payment::decode_response(bad) {
        Err(rusty_razorpay::error::RazorpayError::SerializationError(_)) => {}
        _ => panic!("a payment without its members is neither shape"),
    }
}

#[test]
fn a_contest_serializes_its_free_form_evidence() {
    let did = DisputeId::parse("disp_2").unwrap();
    let contest = ContestDispute {
        amount: 100,
        summary: "s",
        shipping_proof: None,
        billing_proof: None,
        cancellation_proof: None,
        customer_communication: None,
        proof_of_service: None,
        explanation_letter: None,
        refund_confirmation: None,
        access_activity_log: None,
        refund_cancellation_policy: None,
        term_and_conditions: None,
        others: Some(&[ContestDisputeOtherEvidence {
            type_: "receipt",
            document_ids: &["doc_9"],
        }]),
        action: ContestDisputeAction::Submit,
    };
    let rp = Dispute::contest_request(&did, &contest);
    assert_eq!(
        json_to_text(&rp.data.unwrap()),
        "{\"amount\":100,\"summary\":\"s\",\"others\":[{\"type\":\"receipt\",\"document_ids\":[\"doc_9\"]}],\"action\":\"submit\"}"
    );
}

#[test]
fn refund_and_customer_bodies_decode_with_their_exact_values() {
    let body = "{\"entity\":\"refund\",\"id\":\"rfnd_5\",\"amount\":50,\"currency\":\"INR\",\"payment_id\":\"pay_5\",\"speed\":\"normal\",\"created_at\":3,\"batch_id\":null,\"notes\":[],\"receipt\":null,\"acquirer_data\":{\"arn\":\"x\"},\"status\":\"processed\",\"speed_requested\":\"optimum\"}";
    let r = Refund::decode_response(body).expect("a refund body should decode");
    assert_eq!(r.id.as_str(), "rfnd_5");
    assert_eq!(r.amount, 50);
    assert_eq!(r.payment_id.as_str(), "pay_5");
    assert_eq!(r.speed, RefundSpeed::Normal);
    assert_eq!(r.status, RefundStatus::Processed);
    assert_eq!(r.speed_requested, Some(RefundSpeed::Optimum));
    assert_eq!(r.speed_processed, None);
    assert_eq!(json_to_text(&r.acquirer_data), "{\"arn\":\"x\"}");

    let body = "{\"id\":\"cust_3\",\"name\":\"Gaurav\",\"contact\":null,\"email\":\"g@x.y\",\"gstin\":null,\"notes\":{\"k\":\"v\"},\"created_at\":4}";
    let c = Customer::decode_response(body).expect("a customer body should decode");
    assert_eq!(c.id.as_str(), "cust_3");
    assert_eq!(c.name, "Gaurav");
    assert_eq!(c.email.as_deref(), Some("g@x.y"));
    assert_eq!(c.contact, None);
    assert_eq!(c.notes, vec![(String::from("k"), String::from("v"))]);

    let wrong = "{\"id\":\"pay_3\",\"name\":\"n\",\"notes\":[],\"created_at\":4}";
    match Customer::decode_response(wrong) {
        Err(rusty_razorpay::error::RazorpayError::SerializationError(_)) => {}
        _ => panic!("a foreign id prefix is not a customer"),
    }
}

#[test]
fn an_item_body_decodes_with_its_exact_values() {
    let body = "{\"id\":\"item_8\",\"name\":\"widget\",\"active\":true,\"amount\":500,\"unit_amount\":500,\"currency\":\"INR\",\"description\":null,\"created_at\":6,\"updated_at\":null,\"type\":\"invoice\",\"unit\":2,\"tax_inclusive\":false,\"hsn_code\":null,\"sac_code\":null,\"tax_rate\":null,\"tax_id\":null,\"tax_group_id\":null}";
    let it = Item::decode_response(body).expect("an item body should decode");
    assert_eq!(it.id.as_str(), "item_8");
    assert_eq!(it.name, "widget");
    assert!(it.active);
    assert_eq!(it.type_, ItemType::Invoice);
    assert_eq!(it.unit, Some(2));
    assert_eq!(it.updated_at, None);
    assert_eq!(it.tax_inclusive, Some(false));
}
