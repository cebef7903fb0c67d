//! Invoice entities and the parameter records of their calls.

use vstd::prelude::*;

use crate::api::RequestParams;
use crate::json::{JVal, JsonValue};

use crate::address::Address;
use crate::common::Currency;
use crate::common::Object;
use crate::common::Timestamp;
use crate::entity::InvoiceEntity;
use crate::ids::CustomerId;
use crate::ids::InvoiceId;
use crate::ids::OrderId;
use crate::ids::PaymentId;
use crate::line_item::LineItem;

verus! {

#[derive(Clone, Debug, PartialEq, Eq)]
pub enum InvoiceType {
    Invoice,
}

#[derive(Clone, Debug, PartialEq, Eq)]
pub struct CustomerDetails {
    pub id: String,
    pub name: String,
    pub email: String,
    pub contact: String,
    pub billing_address: Option<Address>,
    pub shipping_address: Option<Address>,
}

#[derive(Clone, Debug, PartialEq, Eq)]
pub enum InvoiceStatus {
    Draft,
    Issued,
    PartiallyPaid,
    Paid,
    Cancelled,
    Expired,
    Deleted,
}

#[derive(Clone, Debug, PartialEq, Eq)]
pub enum InvoiceMessageStatus {
    Pending,
    Sent,
}

#[derive(Clone, Debug, PartialEq, Eq)]
pub struct Invoice {
    pub id: InvoiceId,
    pub entity: InvoiceEntity,
    pub type_: InvoiceType,
    pub invoice_number: String,
    pub customer_id: Option<CustomerId>,
    pub customer_details: Option<CustomerDetails>,
    pub order_id: OrderId,
    pub line_items: Vec<LineItem>,
    pub payment_id: PaymentId,
    pub status: InvoiceStatus,
    pub expire_by: Timestamp,
    pub issued_at: Timestamp,
    pub paid_at: Option<Timestamp>,
    pub cancelled_at: Option<Timestamp>,
    pub expired_at: Option<Timestamp>,
    pub sms_status: InvoiceMessageStatus,
    pub email_status: InvoiceMessageStatus,
    pub partial_payment: bool,
    pub amount: u64,
    pub amount_paid: u64,
    pub amount_due: u64,
    pub currency: Currency,
    pub description: Option<String>,
    pub notes: Object,
    pub short_url: String,
    pub date: Timestamp,
    pub terms: Option<String>,
    pub comment: Option<String>,
}

#[derive(Clone, Debug, PartialEq, Eq, Default)]
pub enum CreateOrUpdateInvoiceType {
    #[default]
    Invoice,
}

#[derive(Clone, Debug, PartialEq, Eq, Default)]
pub struct CreateInvoiceCustomerAddress<'a> {
    pub line1: &'a str,
    pub line2: Option<&'a str>,
    pub city: &'a str,
    pub zipcode: &'a str,
    pub state: &'a str,
    pub country: &'a str,
}

#[derive(Clone, Debug, PartialEq, Eq, Default)]
pub struct CreateOrUpdateInvoiceCustomer<'a> {
    pub name: &'a str,
    pub email: Option<&'a str>,
    pub contact: Option<&'a str>,
    pub billing_address: Option<CreateInvoiceCustomerAddress<'a>>,
    pub shipping_address: Option<CreateInvoiceCustomerAddress<'a>>,
}

#[derive(Clone, Debug, PartialEq, Eq, Default)]
pub struct CreateOrUpdateInvoiceLineItem<'a> {
    pub item_id: Option<&'a str>,
    pub name: Option<&'a str>,
    pub description: Option<&'a str>,
    pub amount: Option<u64>,
    pub currency: Option<Currency>,
    pub quantity: Option<u64>,
}

#[derive(Clone, Debug, PartialEq, Eq, Default)]
pub struct CreateInvoice<'a> {
    pub type_: CreateOrUpdateInvoiceType,
    pub description: Option<&'a str>,
    pub draft: Option<bool>,
    pub customer_id: Option<&'a CustomerId>,
    pub customer: Option<CreateOrUpdateInvoiceCustomer<'a>>,
    pub line_items: Option<Vec<CreateOrUpdateInvoiceLineItem<'a>>>,
    pub expire_by: Option<Timestamp>,
    pub sms_notify: Option<bool>,
    pub email_notify: Option<bool>,
    pub partial_payment: Option<bool>,
    pub currency: Option<Currency>,
    pub notes: Option<Object>,
}

#[derive(Clone, Debug, PartialEq, Eq, Default)]
pub struct UpdateInvoice<'a> {
    pub type_: CreateOrUpdateInvoiceType,
    pub description: Option<&'a str>,
    pub draft: Option<bool>,
    pub customer_id: Option<&'a CustomerId>,
    pub customer: Option<CreateOrUpdateInvoiceCustomer<'a>>,
    pub line_items: Option<Vec<CreateOrUpdateInvoiceLineItem<'a>>>,
    pub expire_by: Option<Timestamp>,
    pub sms_notify: Option<bool>,
    pub email_notify: Option<bool>,
    pub partial_payment: Option<bool>,
    pub currency: Option<Currency>,
    pub notes: Option<Object>,
}

#[derive(Clone, Debug, PartialEq, Eq, Default)]
pub struct ListInvoices<'a> {
    pub payment_id: Option<&'a PaymentId>,
    pub receipt: Option<&'a str>,
    pub customer_id: Option<&'a CustomerId>,
}

#[derive(Clone, Debug, PartialEq, Eq)]
pub enum InvoiceNotifyMedium {
    Sms,
    Email,
}

/// The wire name of a notification medium.
pub open spec fn notify_medium_code(m: InvoiceNotifyMedium) -> Seq<char> {
    match m {
        InvoiceNotifyMedium::Sms => "sms"@,
        InvoiceNotifyMedium::Email => "email"@,
    }
}

impl InvoiceNotifyMedium {
    /// The wire name of this medium.
    pub fn as_str(&self) -> (r: &'static str)
        ensures
            r@ == notify_medium_code(*self),
    {
        match self {
            InvoiceNotifyMedium::Sms => "sms",
            InvoiceNotifyMedium::Email => "email",
        }
    }
}

/// The wire form of an optional reference: the text, or an explicit
/// `null`, as this listing spells absent members out.
pub open spec fn nullable_str(o: Option<Seq<char>>) -> JVal {
    match o {
        Some(s) => JVal::Str(s),
        None => JVal::Null,
    }
}

/// The members an invoice listing serializes to; every member
/// travels, absent ones as `null`.
pub open spec fn list_invoices_members(c: ListInvoices) -> Seq<(Seq<char>, JVal)> {
    seq![
        (
            "payment_id"@,
            nullable_str(
                match c.payment_id {
                    Some(p) => Some(p@),
                    None => None,
                },
            ),
        ),
        (
            "receipt"@,
            nullable_str(
                match c.receipt {
                    Some(s) => Some(s@),
                    None => None,
                },
            ),
        ),
        (
            "customer_id"@,
            nullable_str(
                match c.customer_id {
                    Some(p) => Some(p@),
                    None => None,
                },
            ),
        ),
    ]
}

impl<'a> ListInvoices<'a> {
    /// Serializes the listing parameters as their JSON body.
    pub fn to_json(&self) -> (r: JsonValue)
        ensures
            r@ == JVal::Obj(list_invoices_members(*self)),
    {
        let mut members: Vec<(String, JsonValue)> = Vec::new();
        members.push(
            (
                String::from_str("payment_id"),
                match &self.payment_id {
                    Some(p) => JsonValue::Str(p.as_str().to_owned()),
                    None => JsonValue::Null,
                },
            ),
        );
        members.push(
            (
                String::from_str("receipt"),
                match self.receipt {
                    Some(s) => JsonValue::Str(s.to_owned()),
                    None => JsonValue::Null,
                },
            ),
        );
        members.push(
            (
                String::from_str("customer_id"),
                match &self.customer_id {
                    Some(p) => JsonValue::Str(p.as_str().to_owned()),
                    None => JsonValue::Null,
                },
            ),
        );
        let ghost cm = list_invoices_members(*self);
        proof {
            let mv = crate::json::member_views_of(members@);
            assert(mv.len() == cm.len());
            assert forall|k: int| 0 <= k < mv.len() implies mv[k] == cm[k] by {
                assert(mv[k] == (members@[k].0@, members@[k].1.jval()));
            }
            assert(mv =~= cm);
        }
        JsonValue::Obj(members)
    }
}

impl Invoice {
    /// The request that issues a drafted invoice: a POST to
    /// `/invoices/{id}/issue`.
    pub fn issue_request(invoice_id: &InvoiceId) -> (r: RequestParams)
        ensures
            r.url@ == "/invoices/"@ + invoice_id@ + "/issue"@,
            r.version is None,
            r.data is None,
    {
        let mut url = String::from_str("/invoices/");
        url.append(invoice_id.as_str());
        url.append("/issue");
        RequestParams { url, version: None, data: None }
    }

    /// The request an invoice removal sends: a DELETE of
    /// `/invoices/{id}`.
    pub fn delete_request(invoice_id: &InvoiceId) -> (r: RequestParams)
        ensures
            r.url@ == "/invoices/"@ + invoice_id@,
            r.version is None,
            r.data is None,
    {
        let mut url = String::from_str("/invoices/");
        url.append(invoice_id.as_str());
        RequestParams { url, version: None, data: None }
    }

    /// The request that cancels an issued invoice: a POST to
    /// `/invoices/{id}/cancel`.
    pub fn cancel_request(invoice_id: &InvoiceId) -> (r: RequestParams)
        ensures
            r.url@ == "/invoices/"@ + invoice_id@ + "/cancel"@,
            r.version is None,
            r.data is None,
    {
        let mut url = String::from_str("/invoices/");
        url.append(invoice_id.as_str());
        url.append("/cancel");
        RequestParams { url, version: None, data: None }
    }

    /// The request an invoice fetch sends: a GET of
    /// `/invoices/{id}`.
    pub fn fetch_request(invoice_id: &InvoiceId) -> (r: RequestParams)
        ensures
            r.url@ == "/invoices/"@ + invoice_id@,
            r.version is None,
            r.data is None,
    {
        let mut url = String::from_str("/invoices/");
        url.append(invoice_id.as_str());
        RequestParams { url, version: None, data: None }
    }

    /// The request an invoice listing sends: a GET of `/invoices`
    /// with the listing parameters as query payload.
    pub fn list_request(params: Option<&ListInvoices<'_>>) -> (r: RequestParams)
        ensures
            r.url@ == "/invoices"@,
            r.version is None,
            match params {
                Some(p) => r.data matches Some(d) && d@ == JVal::Obj(list_invoices_members(*p)),
                None => r.data is None,
            },
    {
        RequestParams {
            url: String::from_str("/invoices"),
            version: None,
            data: match params {
                Some(p) => Some(p.to_json()),
                None => None,
            },
        }
    }

    /// The request that resends an invoice: a POST to
    /// `/invoices/{id}/notify_by/{medium}`.
    pub fn notify_request(invoice_id: &InvoiceId, medium: InvoiceNotifyMedium) -> (r:
        RequestParams)
        ensures
            r.url@ == "/invoices/"@ + invoice_id@ + "/notify_by/"@ + notify_medium_code(medium),
            r.version is None,
            r.data is None,
    {
        let mut url = String::from_str("/invoices/");
        url.append(invoice_id.as_str());
        url.append("/notify_by/");
        url.append(medium.as_str());
        RequestParams { url, version: None, data: None }
    }
}

/// The wire name of the one invoice kind.
pub open spec fn invoice_kind_code(t: CreateOrUpdateInvoiceType) -> Seq<char> {
    match t {
        CreateOrUpdateInvoiceType::Invoice => "invoice"@,
    }
}

impl CreateOrUpdateInvoiceType {
    /// The wire name of this kind.
    pub fn as_str(&self) -> (r: &'static str)
        ensures
            r@ == invoice_kind_code(*self),
    {
        match self {
            CreateOrUpdateInvoiceType::Invoice => "invoice",
        }
    }
}

/// The members a customer address serializes to.
pub open spec fn invoice_address_members(a: CreateInvoiceCustomerAddress) -> Seq<
    (Seq<char>, JVal),
> {
    seq![("line1"@, JVal::Str(a.line1@))] + (match a.line2 {
        Some(s) => seq![("line2"@, JVal::Str(s@))],
        None => Seq::empty(),
    }) + seq![
        ("city"@, JVal::Str(a.city@)),
        ("zipcode"@, JVal::Str(a.zipcode@)),
        ("state"@, JVal::Str(a.state@)),
        ("country"@, JVal::Str(a.country@)),
    ]
}

impl<'a> CreateInvoiceCustomerAddress<'a> {
    /// Serializes the address as its JSON body.
    pub fn to_json(&self) -> (r: JsonValue)
        ensures
            r@ == JVal::Obj(invoice_address_members(*self)),
    {
        let mut members: Vec<(String, JsonValue)> = Vec::new();
        members.push((String::from_str("line1"), JsonValue::Str(self.line1.to_owned())));
        if let Some(s) = self.line2 {
            members.push((String::from_str("line2"), JsonValue::Str(s.to_owned())));
        }
        members.push((String::from_str("city"), JsonValue::Str(self.city.to_owned())));
        members.push((String::from_str("zipcode"), JsonValue::Str(self.zipcode.to_owned())));
        members.push((String::from_str("state"), JsonValue::Str(self.state.to_owned())));
        members.push((String::from_str("country"), JsonValue::Str(self.country.to_owned())));
        let ghost cm = invoice_address_members(*self);
        proof {
            let mv = crate::json::member_views_of(members@);
            assert(mv.len() == cm.len());
            assert forall|k: int| 0 <= k < mv.len() implies mv[k] == cm[k] by {
                assert(mv[k] == (members@[k].0@, members@[k].1.jval()));
            }
            assert(mv =~= cm);
        }
        JsonValue::Obj(members)
    }
}

/// The members an invoiced customer serializes to.
pub open spec fn invoice_customer_members(c: CreateOrUpdateInvoiceCustomer) -> Seq<
    (Seq<char>, JVal),
> {
    seq![("name"@, JVal::Str(c.name@))] + (match c.email {
        Some(s) => seq![("email"@, JVal::Str(s@))],
        None => Seq::empty(),
    }) + (match c.contact {
        Some(s) => seq![("contact"@, JVal::Str(s@))],
        None => Seq::empty(),
    }) + (match c.billing_address {
        Some(a) => seq![("billing_address"@, JVal::Obj(invoice_address_members(a)))],
        None => Seq::empty(),
    }) + (match c.shipping_address {
        Some(a) => seq![("shipping_address"@, JVal::Obj(invoice_address_members(a)))],
        None => Seq::empty(),
    })
}

impl<'a> CreateOrUpdateInvoiceCustomer<'a> {
    /// Serializes the customer as its JSON body.
    pub fn to_json(&self) -> (r: JsonValue)
        ensures
            r@ == JVal::Obj(invoice_customer_members(*self)),
    {
        let mut members: Vec<(String, JsonValue)> = Vec::new();
        members.push((String::from_str("name"), JsonValue::Str(self.name.to_owned())));
        if let Some(s) = self.email {
            members.push((String::from_str("email"), JsonValue::Str(s.to_owned())));
        }
        if let Some(s) = self.contact {
            members.push((String::from_str("contact"), JsonValue::Str(s.to_owned())));
        }
        if let Some(a) = &self.billing_address {
            members.push((String::from_str("billing_address"), a.to_json()));
        }
        if let Some(a) = &self.shipping_address {
            members.push((String::from_str("shipping_address"), a.to_json()));
        }
        let ghost cm = invoice_customer_members(*self);
        proof {
            let mv = crate::json::member_views_of(members@);
            assert(mv.len() == cm.len());
            assert forall|k: int| 0 <= k < mv.len() implies mv[k] == cm[k] by {
                assert(mv[k] == (members@[k].0@, members@[k].1.jval()));
            }
            assert(mv =~= cm);
        }
        JsonValue::Obj(members)
    }
}

/// The members one invoice line serializes to.
pub open spec fn invoice_line_members(c: CreateOrUpdateInvoiceLineItem) -> Seq<(Seq<char>, JVal)> {
    (match c.item_id {
        Some(s) => seq![("item_id"@, JVal::Str(s@))],
        None => Seq::empty(),
    }) + (match c.name {
        Some(s) => seq![("name"@, JVal::Str(s@))],
        None => Seq::empty(),
    }) + (match c.description {
        Some(s) => seq![("description"@, JVal::Str(s@))],
        None => Seq::empty(),
    }) + (match c.amount {
        Some(a) => seq![("amount"@, JVal::Num(crate::num::dec_str(a as int)))],
        None => Seq::empty(),
    }) + (match c.currency {
        Some(cur) => seq![("currency"@, JVal::Str(crate::common::currency_code(cur)))],
        None => Seq::empty(),
    }) + (match c.quantity {
        Some(q) => seq![("quantity"@, JVal::Num(crate::num::dec_str(q as int)))],
        None => Seq::empty(),
    })
}

impl<'a> CreateOrUpdateInvoiceLineItem<'a> {
    /// Serializes the line as its JSON body.
    #[verifier::rlimit(60)]
    pub fn to_json(&self) -> (r: JsonValue)
        ensures
            r@ == JVal::Obj(invoice_line_members(*self)),
    {
        let mut members: Vec<(String, JsonValue)> = Vec::new();
        if let Some(s) = self.item_id {
            members.push((String::from_str("item_id"), JsonValue::Str(s.to_owned())));
        }
        if let Some(s) = self.name {
            members.push((String::from_str("name"), JsonValue::Str(s.to_owned())));
        }
        if let Some(s) = self.description {
            members.push((String::from_str("description"), JsonValue::Str(s.to_owned())));
        }
        if let Some(a) = self.amount {
            members.push(
                (String::from_str("amount"), JsonValue::Num(crate::num::u64_to_string(a))),
            );
        }
        if let Some(cur) = &self.currency {
            members.push(
                (String::from_str("currency"), JsonValue::Str(String::from_str(cur.as_str()))),
            );
        }
        if let Some(q) = self.quantity {
            members.push(
                (String::from_str("quantity"), JsonValue::Num(crate::num::u64_to_string(q))),
            );
        }
        let ghost cm = invoice_line_members(*self);
        proof {
            let mv = crate::json::member_views_of(members@);
            assert(mv.len() == cm.len());
            assert forall|k: int| 0 <= k < mv.len() implies mv[k] == cm[k] by {
                assert(mv[k] == (members@[k].0@, members@[k].1.jval()));
            }
            assert(mv =~= cm);
        }
        JsonValue::Obj(members)
    }
}

/// The wire form of an invoice's line list.
pub open spec fn invoice_lines_jarr(lines: Seq<CreateOrUpdateInvoiceLineItem>) -> Seq<JVal> {
    Seq::new(
        lines.len(),
        |i: int|
            if 0 <= i < lines.len() {
                JVal::Obj(invoice_line_members(lines[i]))
            } else {
                JVal::Null
            },
    )
}

fn invoice_lines_to_json(lines: &Vec<CreateOrUpdateInvoiceLineItem<'_>>) -> (r: JsonValue)
    ensures
        r@ == JVal::Arr(invoice_lines_jarr(lines@)),
{
    let mut items: Vec<JsonValue> = Vec::new();
    let n = lines.len();
    let mut i: usize = 0;
    while i < n
        invariant
            n == lines@.len(),
            i <= n,
            items@.len() == i,
            forall|k: int| 0 <= k < i ==> #[trigger] items@[k]@ == JVal::Obj(
                invoice_line_members(lines@[k]),
            ),
        decreases n - i,
    {
        items.push(lines[i].to_json());
        i = i + 1;
        assert(items@[i - 1]@ == JVal::Obj(invoice_line_members(lines@[i - 1])));
    }
    proof {
        assert forall|k: int| 0 <= k < n implies crate::json::views_of(items@)[k]
            == invoice_lines_jarr(lines@)[k] by {
            assert(items@[k]@ == JVal::Obj(invoice_line_members(lines@[k])));
        }
        assert(crate::json::views_of(items@) =~= invoice_lines_jarr(lines@));
    }
    JsonValue::Arr(items)
}

/// One optional member holding a string.
pub open spec fn opt_str_member_of(key: Seq<char>, o: Option<Seq<char>>) -> Seq<(Seq<char>, JVal)> {
    match o {
        Some(s) => seq![(key, JVal::Str(s))],
        None => Seq::empty(),
    }
}

/// The members an invoice document serializes to, in declaration
/// order; the notify flags travel as the number one or zero.
pub open spec fn create_invoice_members(c: CreateInvoice) -> Seq<(Seq<char>, JVal)> {
    seq![("type"@, JVal::Str(invoice_kind_code(c.type_)))] + crate::common::seg_str(
        "description"@,
        c.description,
    ) + crate::common::seg_bool_int("draft"@, c.draft) + (match c.customer_id {
        Some(id) => seq![("customer_id"@, JVal::Str(id@))],
        None => Seq::empty(),
    }) + (match c.customer {
        Some(cu) => seq![("customer"@, JVal::Obj(invoice_customer_members(cu)))],
        None => Seq::empty(),
    }) + (match c.line_items {
        Some(ls) => seq![("line_items"@, JVal::Arr(invoice_lines_jarr(ls@)))],
        None => Seq::empty(),
    }) + crate::common::seg_i64("expire_by"@, c.expire_by) + crate::common::seg_bool_int(
        "sms_notify"@,
        c.sms_notify,
    ) + crate::common::seg_bool_int("email_notify"@, c.email_notify) + crate::common::seg_bool(
        "partial_payment"@,
        c.partial_payment,
    ) + crate::common::seg_currency("currency"@, c.currency) + crate::common::seg_notes(
        "notes"@,
        c.notes,
    )
}

impl<'a> CreateInvoice<'a> {
    /// Serializes the invoice parameters as their JSON body.
    pub fn to_json(&self) -> (r: JsonValue)
        ensures
            r@ == JVal::Obj(create_invoice_members(*self)),
    {
        let mut members: Vec<(String, JsonValue)> = Vec::new();
        members.push(
            (String::from_str("type"), JsonValue::Str(String::from_str(self.type_.as_str()))),
        );
        proof {
            assert(crate::json::member_views_of(members@) =~= seq![
                ("type"@, JVal::Str(invoice_kind_code(self.type_))),
            ]);
        }
        crate::common::push_seg_str(&mut members, "description", self.description);
        crate::common::push_seg_bool_int(&mut members, "draft", self.draft);
        let ghost before_id = crate::json::member_views_of(members@);
        match &self.customer_id {
            Some(id) => {
                let ghost pre = members@;
                members.push(
                    (String::from_str("customer_id"), JsonValue::Str(id.as_str().to_owned())),
                );
                proof {
                    assert(crate::json::member_views_of(members@)
                        =~= crate::json::member_views_of(pre) + seq![
                        ("customer_id"@, JVal::Str(id@)),
                    ]);
                }
            },
            None => {
                proof {
                    assert(before_id =~= before_id + Seq::<(Seq<char>, JVal)>::empty());
                }
            },
        }
        let ghost before_cu = crate::json::member_views_of(members@);
        match &self.customer {
            Some(cu) => {
                let ghost pre = members@;
                members.push((String::from_str("customer"), cu.to_json()));
                proof {
                    assert(crate::json::member_views_of(members@)
                        =~= crate::json::member_views_of(pre) + seq![
                        ("customer"@, JVal::Obj(invoice_customer_members(*cu))),
                    ]);
                }
            },
            None => {
                proof {
                    assert(before_cu =~= before_cu + Seq::<(Seq<char>, JVal)>::empty());
                }
            },
        }
        let ghost before_ls = crate::json::member_views_of(members@);
        match &self.line_items {
            Some(ls) => {
                let ghost pre = members@;
                members.push((String::from_str("line_items"), invoice_lines_to_json(ls)));
                proof {
                    assert(crate::json::member_views_of(members@)
                        =~= crate::json::member_views_of(pre) + seq![
                        ("line_items"@, JVal::Arr(invoice_lines_jarr(ls@))),
                    ]);
                }
            },
            None => {
                proof {
                    assert(before_ls =~= before_ls + Seq::<(Seq<char>, JVal)>::empty());
                }
            },
        }
        crate::common::push_seg_i64(&mut members, "expire_by", self.expire_by);
        crate::common::push_seg_bool_int(&mut members, "sms_notify", self.sms_notify);
        crate::common::push_seg_bool_int(&mut members, "email_notify", self.email_notify);
        crate::common::push_seg_bool(&mut members, "partial_payment", self.partial_payment);
        crate::common::push_seg_currency(&mut members, "currency", self.currency);
        crate::common::push_seg_notes(&mut members, "notes", &self.notes);
        JsonValue::Obj(members)
    }
}

/// The members an invoice document serializes to, in declaration
/// order; the notify flags travel as the number one or zero.
pub open spec fn update_invoice_members(c: UpdateInvoice) -> Seq<(Seq<char>, JVal)> {
    seq![("type"@, JVal::Str(invoice_kind_code(c.type_)))] + crate::common::seg_str(
        "description"@,
        c.description,
    ) + crate::common::seg_bool_int("draft"@, c.draft) + (match c.customer_id {
        Some(id) => seq![("customer_id"@, JVal::Str(id@))],
        None => Seq::empty(),
    }) + (match c.customer {
        Some(cu) => seq![("customer"@, JVal::Obj(invoice_customer_members(cu)))],
        None => Seq::empty(),
    }) + (match c.line_items {
        Some(ls) => seq![("line_items"@, JVal::Arr(invoice_lines_jarr(ls@)))],
        None => Seq::empty(),
    }) + crate::common::seg_i64("expire_by"@, c.expire_by) + crate::common::seg_bool_int(
        "sms_notify"@,
        c.sms_notify,
    ) + crate::common::seg_bool_int("email_notify"@, c.email_notify) + crate::common::seg_bool(
        "partial_payment"@,
        c.partial_payment,
    ) + crate::common::seg_currency("currency"@, c.currency) + crate::common::seg_notes(
        "notes"@,
        c.notes,
    )
}

impl<'a> UpdateInvoice<'a> {
    /// Serializes the invoice parameters as their JSON body.
    pub fn to_json(&self) -> (r: JsonValue)
        ensures
            r@ == JVal::Obj(update_invoice_members(*self)),
    {
        let mut members: Vec<(String, JsonValue)> = Vec::new();
        members.push(
            (String::from_str("type"), JsonValue::Str(String::from_str(self.type_.as_str()))),
        );
        proof {
            assert(crate::json::member_views_of(members@) =~= seq![
                ("type"@, JVal::Str(invoice_kind_code(self.type_))),
            ]);
        }
        crate::common::push_seg_str(&mut members, "description", self.description);
        crate::common::push_seg_bool_int(&mut members, "draft", self.draft);
        let ghost before_id = crate::json::member_views_of(members@);
        match &self.customer_id {
            Some(id) => {
                let ghost pre = members@;
                members.push(
                    (String::from_str("customer_id"), JsonValue::Str(id.as_str().to_owned())),
                );
                proof {
                    assert(crate::json::member_views_of(members@)
                        =~= crate::json::member_views_of(pre) + seq![
                        ("customer_id"@, JVal::Str(id@)),
                    ]);
                }
            },
            None => {
                proof {
                    assert(before_id =~= before_id + Seq::<(Seq<char>, JVal)>::empty());
                }
            },
        }
        let ghost before_cu = crate::json::member_views_of(members@);
        match &self.customer {
            Some(cu) => {
                let ghost pre = members@;
                members.push((String::from_str("customer"), cu.to_json()));
                proof {
                    assert(crate::json::member_views_of(members@)
                        =~= crate::json::member_views_of(pre) + seq![
                        ("customer"@, JVal::Obj(invoice_customer_members(*cu))),
                    ]);
                }
            },
            None => {
                proof {
                    assert(before_cu =~= before_cu + Seq::<(Seq<char>, JVal)>::empty());
                }
            },
        }
        let ghost before_ls = crate::json::member_views_of(members@);
        match &self.line_items {
            Some(ls) => {
                let ghost pre = members@;
                members.push((String::from_str("line_items"), invoice_lines_to_json(ls)));
                proof {
                    assert(crate::json::member_views_of(members@)
                        =~= crate::json::member_views_of(pre) + seq![
                        ("line_items"@, JVal::Arr(invoice_lines_jarr(ls@))),
                    ]);
                }
            },
            None => {
                proof {
                    assert(before_ls =~= before_ls + Seq::<(Seq<char>, JVal)>::empty());
                }
            },
        }
        crate::common::push_seg_i64(&mut members, "expire_by", self.expire_by);
        crate::common::push_seg_bool_int(&mut members, "sms_notify", self.sms_notify);
        crate::common::push_seg_bool_int(&mut members, "email_notify", self.email_notify);
        crate::common::push_seg_bool(&mut members, "partial_payment", self.partial_payment);
        crate::common::push_seg_currency(&mut members, "currency", self.currency);
        crate::common::push_seg_notes(&mut members, "notes", &self.notes);
        JsonValue::Obj(members)
    }
}


impl Invoice {
    /// The request invoice creation sends: a POST to `/invoices`.
    pub fn create_request(params: &CreateInvoice<'_>) -> (r: RequestParams)
        ensures
            r.url@ == "/invoices"@,
            r.version is None,
            r.data matches Some(d) && d@ == JVal::Obj(create_invoice_members(*params)),
    {
        RequestParams {
            url: String::from_str("/invoices"),
            version: None,
            data: Some(params.to_json()),
        }
    }

    /// The request an invoice update sends: a PATCH of
    /// `/invoices/{id}`.
    pub fn update_request(invoice_id: &InvoiceId, params: &UpdateInvoice<'_>) -> (r: RequestParams)
        ensures
            r.url@ == "/invoices/"@ + invoice_id@,
            r.version is None,
            r.data matches Some(d) && d@ == JVal::Obj(update_invoice_members(*params)),
    {
        let mut url = String::from_str("/invoices/");
        url.append(invoice_id.as_str());
        RequestParams { url, version: None, data: Some(params.to_json()) }
    }
}

} // verus!
