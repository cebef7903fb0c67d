//! Orders: the entity, its decode from a response body, the parameter
//! records of its calls and the requests those calls send.

use vstd::prelude::*;

use crate::api::{RequestParams, SpEnvelope};
use crate::common::{
    object_members, object_views, spec_currency_from, Collection, Currency, Filter, Object,
    Timestamp,
};
use crate::decode::{sp_notes, sp_opt_bool, sp_req_i64, sp_req_str, sp_req_u32, sp_req_u64};
use crate::entity::OrderEntity;
use crate::error::{sp_opt_str, RazorpayError, RazorpayResult};
use crate::ids::{OfferId, OrderId};
use crate::json::{obj_get, JVal, JsonValue};
use crate::num::dec_str;
use crate::payment::Payment;
use crate::strutil::spec_is_prefix;

verus! {

/// A bank account attached to an order at creation.
#[derive(Clone, Debug, PartialEq, Eq)]
pub struct OrderBankAccount<'a> {
    pub account_number: &'a str,
    pub name: &'a str,
    pub ifsc: &'a str,
}

/// The parameters of order creation.
#[derive(Clone, Debug, PartialEq, Eq, Default)]
pub struct CreateOrder<'a> {
    pub amount: u64,
    pub currency: Currency,
    pub receipt: Option<&'a str>,
    pub notes: Object,
    pub partial_payment: Option<bool>,
    pub bank_account: Option<OrderBankAccount<'a>>,
}

/// The relations an order listing can expand in place.
#[derive(Clone, Copy, Debug, PartialEq, Eq, Structural)]
pub enum OrderExpand {
    Payments,
    PaymentsCard,
    Transfers,
    VirtualAccount,
}

/// The wire name of an expansion.
pub open spec fn order_expand_code(e: OrderExpand) -> Seq<char> {
    match e {
        OrderExpand::Payments => "payments"@,
        OrderExpand::PaymentsCard => "paymentsCard"@,
        OrderExpand::Transfers => "transfers"@,
        OrderExpand::VirtualAccount => "virtualAccount"@,
    }
}

impl OrderExpand {
    /// The wire name of this expansion.
    pub fn as_str(&self) -> (r: &'static str)
        ensures
            r@ == order_expand_code(*self),
    {
        match self {
            OrderExpand::Payments => "payments",
            OrderExpand::PaymentsCard => "paymentsCard",
            OrderExpand::Transfers => "transfers",
            OrderExpand::VirtualAccount => "virtualAccount",
        }
    }
}

/// The lifecycle of an order.
#[derive(Clone, Copy, Debug, PartialEq, Eq, Structural)]
pub enum OrderStatus {
    Created,
    Attempted,
    Paid,
}

/// The order status a wire name denotes, if any.
pub open spec fn spec_order_status(s: Seq<char>) -> Option<OrderStatus> {
    if s == "created"@ {
        Some(OrderStatus::Created)
    } else if s == "attempted"@ {
        Some(OrderStatus::Attempted)
    } else if s == "paid"@ {
        Some(OrderStatus::Paid)
    } else {
        None
    }
}

impl OrderStatus {
    /// Accepts exactly the wire names of the three states.
    pub fn parse(s: &str) -> (r: Option<OrderStatus>)
        ensures
            r == spec_order_status(s@),
    {
        if crate::strutil::str_eq(s, "created") {
            Some(OrderStatus::Created)
        } else if crate::strutil::str_eq(s, "attempted") {
            Some(OrderStatus::Attempted)
        } else if crate::strutil::str_eq(s, "paid") {
            Some(OrderStatus::Paid)
        } else {
            None
        }
    }
}

/// An order as the service returns it.
#[derive(Clone, Debug, PartialEq, Eq)]
pub struct Order {
    pub id: OrderId,
    pub entity: OrderEntity,
    pub amount: u64,
    pub partial_payment: Option<bool>,
    pub amount_paid: u64,
    pub amount_due: u64,
    pub currency: Currency,
    pub receipt: Option<String>,
    pub offer_id: Option<OfferId>,
    pub payments: Option<Collection<Payment>>,
    pub status: OrderStatus,
    pub notes: Object,
    pub attempts: u32,
    pub created_at: Timestamp,
}

/// The mathematical content of an [`Order`].
pub ghost struct OrderModel {
    pub id: Seq<char>,
    pub amount: u64,
    pub partial_payment: Option<bool>,
    pub amount_paid: u64,
    pub amount_due: u64,
    pub currency: Currency,
    pub receipt: Option<Seq<char>>,
    pub offer_id: Option<Seq<char>>,
    pub status: OrderStatus,
    pub notes: Seq<(Seq<char>, Seq<char>)>,
    pub attempts: u32,
    pub created_at: int,
    pub payments: Option<(int, Seq<crate::payment::PaymentModel>)>,
}

impl Order {
    pub open spec fn model(self) -> OrderModel {
        OrderModel {
            id: self.id@,
            amount: self.amount,
            partial_payment: self.partial_payment,
            amount_paid: self.amount_paid,
            amount_due: self.amount_due,
            currency: self.currency,
            receipt: crate::error::opt_view(self.receipt),
            offer_id: match self.offer_id {
                Some(o) => Some(o@),
                None => None,
            },
            status: self.status,
            notes: object_views(self.notes@),
            attempts: self.attempts,
            created_at: self.created_at as int,
            payments: match self.payments {
                Some(c) => Some(
                    (c.count as int, crate::payment::payment_views(c.items@)),
                ),
                None => None,
            },
        }
    }
}

/// What an order body decodes to.  The `entity` tag must read `order`,
/// ids must carry their prefixes, and an expanded `payments` member,
/// where present, must decode as a collection of payments.
pub open spec fn sp_order(v: JVal) -> Option<OrderModel> {
    match v {
        JVal::Obj(m) => {
            if sp_req_str(obj_get(m, "entity"@)) != Some("order"@) {
                None
            } else {
                match (sp_req_str(obj_get(m, "id"@)), sp_req_u64(obj_get(m, "amount"@)),
                sp_opt_bool(obj_get(m, "partial_payment"@)), sp_req_u64(obj_get(m, "amount_paid"@)),
                sp_req_u64(obj_get(m, "amount_due"@)), crate::payment::sp_opt_payments(
                    obj_get(m, "payments"@),
                )) {
                    (Some(id), Some(amount), Some(partial_payment), Some(amount_paid), Some(
                        amount_due,
                    ), Some(payments)) => {
                        match ((match sp_req_str(obj_get(m, "currency"@)) {
                            Some(c) => spec_currency_from(c),
                            None => None,
                        }), sp_opt_str(obj_get(m, "receipt"@)), sp_opt_str(obj_get(m, "offer_id"@)),
                        (match sp_req_str(obj_get(m, "status"@)) {
                            Some(s) => spec_order_status(s),
                            None => None,
                        }), sp_notes(obj_get(m, "notes"@)), sp_req_u32(obj_get(m, "attempts"@)),
                        sp_req_i64(obj_get(m, "created_at"@))) {
                            (Some(currency), Some(receipt), Some(offer_id), Some(status), Some(
                                notes,
                            ), Some(attempts), Some(created_at)) => {
                                if spec_is_prefix("order_"@, id) && (match offer_id {
                                    Some(o) => spec_is_prefix("offer_"@, o),
                                    None => true,
                                }) {
                                    Some(
                                        OrderModel {
                                            id,
                                            amount,
                                            partial_payment,
                                            amount_paid,
                                            amount_due,
                                            currency,
                                            receipt,
                                            offer_id,
                                            status,
                                            notes,
                                            attempts,
                                            created_at: created_at as int,
                                            payments,
                                        },
                                    )
                                } else {
                                    None
                                }
                            },
                            _ => None,
                        }
                    },
                    _ => None,
                }
            }
        },
        _ => None,
    }
}

impl Order {
    /// Decodes an order body; `None` exactly where the body does not
    /// have the order shape.
    #[verifier::rlimit(100)]
    pub fn from_json(v: &JsonValue) -> (r: Option<Order>)
        ensures
            match (r, sp_order(v@)) {
                (Some(o), Some(m)) => o.model() == m,
                (None, None) => true,
                _ => false,
            },
    {
        if !(v matches JsonValue::Obj(_)) {
            return None;
        }
        let entity = match crate::decode::req_str(v.get_member("entity")) {
            Some(s) => match OrderEntity::parse(s.as_str()) {
                Ok(e) => e,
                Err(_) => { return None },
            },
            None => { return None },
        };
        let payments = match v.get_member("payments") {
            None => None,
            Some(JsonValue::Null) => None,
            Some(w) => match crate::payment::Payment::collection_from_json(w) {
                Some(c) => Some(c),
                None => { return None },
            },
        };
        let id = match crate::decode::req_str(v.get_member("id")) {
            Some(s) => match OrderId::parse(s.as_str()) {
                Ok(id) => id,
                Err(_) => { return None },
            },
            None => { return None },
        };
        let amount = match crate::decode::req_u64(v.get_member("amount")) {
            Some(n) => n,
            None => { return None },
        };
        let partial_payment = match crate::decode::opt_bool(v.get_member("partial_payment")) {
            Some(b) => b,
            None => { return None },
        };
        let amount_paid = match crate::decode::req_u64(v.get_member("amount_paid")) {
            Some(n) => n,
            None => { return None },
        };
        let amount_due = match crate::decode::req_u64(v.get_member("amount_due")) {
            Some(n) => n,
            None => { return None },
        };
        let currency = match crate::decode::req_str(v.get_member("currency")) {
            Some(s) => match Currency::parse(s.as_str()) {
                Some(c) => c,
                None => { return None },
            },
            None => { return None },
        };
        let receipt = match crate::error::opt_str_member(v, "receipt") {
            Some(o) => o,
            None => { return None },
        };
        let offer_id = match crate::error::opt_str_member(v, "offer_id") {
            Some(Some(s)) => match OfferId::parse(s.as_str()) {
                Ok(o) => Some(o),
                Err(_) => { return None },
            },
            Some(None) => None,
            None => { return None },
        };
        let status = match crate::decode::req_str(v.get_member("status")) {
            Some(s) => match OrderStatus::parse(s.as_str()) {
                Some(st) => st,
                None => { return None },
            },
            None => { return None },
        };
        let notes = match crate::decode::req_notes(v.get_member("notes")) {
            Some(o) => o,
            None => { return None },
        };
        let attempts = match crate::decode::req_u32(v.get_member("attempts")) {
            Some(n) => n,
            None => { return None },
        };
        let created_at = match crate::decode::req_i64(v.get_member("created_at")) {
            Some(n) => n,
            None => { return None },
        };
        Some(
            Order {
                id,
                entity,
                amount,
                partial_payment,
                amount_paid,
                amount_due,
                currency,
                receipt,
                offer_id,
                payments,
                status,
                notes,
                attempts,
                created_at,
            },
        )
    }
}

/// The models of a sequence of decoded orders, element for element.
pub open spec fn order_views(items: Seq<Order>) -> Seq<OrderModel> {
    Seq::new(
        items.len(),
        |i: int|
            if 0 <= i < items.len() {
                items[i].model()
            } else {
                items[0].model()
            },
    )
}

/// The items of an order listing, scanning from `i`: every element
/// must decode as an order.
pub open spec fn sp_order_items_from(items: Seq<JVal>, i: int) -> Option<Seq<OrderModel>>
    decreases items.len() - i,
{
    if !(0 <= i < items.len()) {
        Some(Seq::empty())
    } else {
        match sp_order(items[i]) {
            Some(m) => match sp_order_items_from(items, i + 1) {
                Some(rest) => Some(seq![m] + rest),
                None => None,
            },
            None => None,
        }
    }
}

/// What an order listing decodes to: an object tagged
/// `entity: "collection"`, its count, and its items all orders.
pub open spec fn sp_order_collection(v: JVal) -> Option<(int, Seq<OrderModel>)> {
    match v {
        JVal::Obj(m) => {
            if sp_req_str(obj_get(m, "entity"@)) != Some("collection"@) {
                None
            } else {
                match (sp_req_u64(obj_get(m, "count"@)), (match obj_get(m, "items"@) {
                    Some(JVal::Arr(items)) => sp_order_items_from(items, 0),
                    _ => None,
                })) {
                    (Some(count), Some(items)) => if count <= usize::MAX {
                        Some((count as int, items))
                    } else {
                        None
                    },
                    _ => None,
                }
            }
        },
        _ => None,
    }
}

fn decode_order_items(items: &Vec<JsonValue>, i: usize) -> (r: Option<Vec<Order>>)
    requires
        i <= items@.len(),
    ensures
        match (r, sp_order_items_from(crate::json::views_of(items@), i as int)) {
            (Some(os), Some(ms)) => order_views(os@) == ms,
            (None, None) => true,
            _ => false,
        },
    decreases items@.len() - i,
{
    if i >= items.len() {
        let os: Vec<Order> = Vec::new();
        proof {
            assert(order_views(os@) =~= Seq::<OrderModel>::empty());
        }
        Some(os)
    } else {
        proof {
            assert(crate::json::views_of(items@)[i as int] == items@[i as int].jval());
        }
        match Order::from_json(&items[i]) {
            None => None,
            Some(o) => match decode_order_items(items, i + 1) {
                None => None,
                Some(mut rest) => {
                    let ghost rpre = rest@;
                    let ghost om = o.model();
                    rest.insert(0, o);
                    proof {
                        let sv = crate::json::views_of(items@);
                        let srest = sp_order_items_from(sv, i as int + 1)->Some_0;
                        assert(rest@ =~= seq![rest@[0]] + rpre);
                        assert forall|q: int| 0 <= q < srest.len() + 1 implies order_views(
                            rest@,
                        )[q] == (seq![om] + srest)[q] by {
                            if q > 0 {
                                assert(order_views(rpre)[q - 1] == srest[q - 1]);
                            }
                        }
                        assert(order_views(rest@) =~= seq![om] + srest);
                    }
                    Some(rest)
                },
            },
        }
    }
}

impl Order {
    /// Decodes an order listing; `None` exactly where the body does
    /// not have the collection-of-orders shape.
    pub fn collection_from_json(v: &JsonValue) -> (r: Option<Collection<Order>>)
        ensures
            match (r, sp_order_collection(v@)) {
                (Some(c), Some((count, items))) => c.count as int == count && order_views(c.items@)
                    == items,
                (None, None) => true,
                _ => false,
            },
    {
        if !(v matches JsonValue::Obj(_)) {
            return None;
        }
        let entity = match crate::decode::req_str(v.get_member("entity")) {
            Some(s) => match crate::entity::CollectionEntity::parse(s.as_str()) {
                Ok(e) => e,
                Err(_) => { return None },
            },
            None => { return None },
        };
        let count64 = match crate::decode::req_u64(v.get_member("count")) {
            Some(n) => n,
            None => { return None },
        };
        if count64 > usize::MAX as u64 {
            return None;
        }
        let items = match v.get_member("items") {
            Some(JsonValue::Arr(items)) => match decode_order_items(items, 0) {
                Some(os) => os,
                None => { return None },
            },
            _ => { return None },
        };
        Some(Collection { entity, count: count64 as usize, items })
    }

    /// Reads a whole order-listing response body: the error shape
    /// wins, any other body must decode as a collection of orders.
    pub fn decode_collection_response(body: &str) -> (r: RazorpayResult<Collection<Order>>)
        ensures
            match crate::parse::sp_json(body@) {
                None => r matches Err(e) && e is SerializationError,
                Some(v) => match crate::api::sp_envelope(v) {
                    SpEnvelope::Failure(m) => r matches Err(RazorpayError::ApiError(e))
                        && e.model() == m,
                    SpEnvelope::Success(w) => match sp_order_collection(w) {
                        Some((count, items)) => r matches Ok(c) && c.count as int == count
                            && order_views(c.items@) == items,
                        None => r matches Err(e) && e is SerializationError,
                    },
                    SpEnvelope::Malformed => r matches Err(e) && e is SerializationError,
                },
            },
    {
        match crate::api::decode_response(body) {
            Err(e) => Err(e),
            Ok(v) => match Order::collection_from_json(&v) {
                Some(c) => Ok(c),
                None => Err(
                    RazorpayError::SerializationError(
                        String::from_str(
                            "response body does not have the collection-of-orders shape",
                        ),
                    ),
                ),
            },
        }
    }
}

/// The listing parameters of orders: the common filter flattened in
/// place, an authorization flag as the number one or zero, a receipt
/// and the expansions.
#[derive(Clone, Debug, PartialEq, Eq, Default)]
pub struct ListOrders<'a> {
    pub filter: Option<Filter>,
    pub authorized: Option<bool>,
    pub receipt: Option<&'a str>,
    pub expand: &'a [OrderExpand],
}

/// The wire form of an order-expansion list.
pub open spec fn order_expand_jarr(es: Seq<OrderExpand>) -> Seq<JVal> {
    Seq::new(
        es.len(),
        |i: int|
            if 0 <= i < es.len() {
                JVal::Str(order_expand_code(es[i]))
            } else {
                JVal::Null
            },
    )
}

/// The members an order listing serializes to, the filter first and the expansions last.
pub open spec fn list_orders_members(c: ListOrders) -> Seq<(Seq<char>, JVal)> {
    (match c.filter {
        Some(f) => crate::common::filter_members(f),
        None => Seq::empty(),
    }) + (match c.authorized {
        Some(b) => seq![("authorized"@, JVal::Num(if b { "1"@ } else { "0"@ }))],
        None => Seq::empty(),
    }) + (match c.receipt {
        Some(rc) => seq![("receipt"@, JVal::Str(rc@))],
        None => Seq::empty(),
    }) + seq![("expand[]"@, JVal::Arr(order_expand_jarr(c.expand@)))]
}

impl<'a> ListOrders<'a> {
    /// Serializes these parameters as their JSON body.
    #[verifier::rlimit(60)]
    pub fn to_json(&self) -> (r: JsonValue)
        ensures
            r@ == JVal::Obj(list_orders_members(*self)),
    {
        let mut members: Vec<(String, JsonValue)> = Vec::new();
        if let Some(f) = &self.filter {
            if let Some(t) = f.from {
                members.push(
                    (String::from_str("from"), JsonValue::Num(crate::num::i64_to_string(t))),
                );
            }
            if let Some(t) = f.to {
                members.push(
                    (String::from_str("to"), JsonValue::Num(crate::num::i64_to_string(t))),
                );
            }
            if let Some(n) = f.count {
                members.push(
                    (
                        String::from_str("count"),
                        JsonValue::Num(crate::num::u64_to_string(n as u64)),
                    ),
                );
            }
            if let Some(n) = f.skip {
                members.push(
                    (
                        String::from_str("skip"),
                        JsonValue::Num(crate::num::u64_to_string(n as u64)),
                    ),
                );
            }
        }
        if let Some(b) = self.authorized {
            members.push(
                (
                    String::from_str("authorized"),
                    JsonValue::Num(String::from_str(if b { "1" } else { "0" })),
                ),
            );
        }
        if let Some(rc) = self.receipt {
            members.push((String::from_str("receipt"), JsonValue::Str(rc.to_owned())));
        }
        let mut items: Vec<JsonValue> = Vec::new();
        let n = self.expand.len();
        let mut i: usize = 0;
        while i < n
            invariant
                n == self.expand@.len(),
                i <= n,
                items@.len() == i,
                forall|k: int| 0 <= k < i ==> #[trigger] items@[k]@ == JVal::Str(
                    order_expand_code(self.expand@[k]),
                ),
            decreases n - i,
        {
            let e = vstd::slice::slice_index_get(self.expand, i);
            items.push(JsonValue::Str(String::from_str(e.as_str())));
            i = i + 1;
            assert(items@[i - 1]@ == JVal::Str(order_expand_code(self.expand@[i - 1])));
        }
        proof {
            assert forall|k: int| 0 <= k < n implies crate::json::views_of(items@)[k]
                == order_expand_jarr(self.expand@)[k] by {
                assert(items@[k]@ == JVal::Str(order_expand_code(self.expand@[k])));
            }
            assert(crate::json::views_of(items@) =~= order_expand_jarr(self.expand@));
        }
        members.push((String::from_str("expand[]"), JsonValue::Arr(items)));
        let ghost cm = list_orders_members(*self);
        proof {
            let mv = crate::json::member_views_of(members@);
            assert(mv.len() == cm.len());
            assert forall|k: int| 0 <= k < mv.len() implies mv[k] == cm[k] by {
                assert(mv[k] == (members@[k].0@, members@[k].1.jval()));
            }
            assert(mv =~= cm);
        }
        JsonValue::Obj(members)
    }
}

/// The members order creation serializes to, in declaration order;
/// empty notes and absent options are left out.
pub open spec fn create_order_members(c: CreateOrder) -> Seq<(Seq<char>, JVal)> {
    seq![("amount"@, JVal::Num(dec_str(c.amount as int)))] + seq![
        ("currency"@, JVal::Str(crate::common::currency_code(c.currency))),
    ] + (match c.receipt {
        Some(rc) => seq![("receipt"@, JVal::Str(rc@))],
        None => Seq::empty(),
    }) + (if c.notes.len() > 0 {
        seq![("notes"@, JVal::Obj(object_members(c.notes@)))]
    } else {
        Seq::empty()
    }) + (match c.partial_payment {
        Some(b) => seq![("partial_payment"@, JVal::Bool(b))],
        None => Seq::empty(),
    }) + (match c.bank_account {
        Some(b) => seq![
            (
                "bank_account"@,
                JVal::Obj(
                    seq![
                        ("account_number"@, JVal::Str(b.account_number@)),
                        ("name"@, JVal::Str(b.name@)),
                        ("ifsc"@, JVal::Str(b.ifsc@)),
                    ],
                ),
            ),
        ],
        None => Seq::empty(),
    })
}

impl<'a> CreateOrder<'a> {
    /// Serializes the creation parameters as their JSON body.
    #[verifier::rlimit(60)]
    pub fn to_json(&self) -> (r: JsonValue)
        ensures
            r@ == JVal::Obj(create_order_members(*self)),
    {
        let mut members: Vec<(String, JsonValue)> = Vec::new();
        members.push(
            (String::from_str("amount"), JsonValue::Num(crate::num::u64_to_string(self.amount))),
        );
        members.push(
            (
                String::from_str("currency"),
                JsonValue::Str(String::from_str(self.currency.as_str())),
            ),
        );
        if let Some(rc) = self.receipt {
            members.push((String::from_str("receipt"), JsonValue::Str(rc.to_owned())));
        }
        if self.notes.len() > 0 {
            members.push((String::from_str("notes"), crate::common::object_to_json(&self.notes)));
        }
        if let Some(b) = self.partial_payment {
            members.push((String::from_str("partial_payment"), JsonValue::Bool(b)));
        }
        if let Some(b) = &self.bank_account {
            let mut inner: Vec<(String, JsonValue)> = Vec::new();
            inner.push(
                (String::from_str("account_number"), JsonValue::Str(b.account_number.to_owned())),
            );
            inner.push((String::from_str("name"), JsonValue::Str(b.name.to_owned())));
            inner.push((String::from_str("ifsc"), JsonValue::Str(b.ifsc.to_owned())));
            proof {
                assert(inner@[0].1@ == JVal::Str(b.account_number@));
                assert(inner@[1].1@ == JVal::Str(b.name@));
                assert(inner@[2].1@ == JVal::Str(b.ifsc@));
                assert(crate::json::member_views_of(inner@) =~= seq![
                    ("account_number"@, JVal::Str(b.account_number@)),
                    ("name"@, JVal::Str(b.name@)),
                    ("ifsc"@, JVal::Str(b.ifsc@)),
                ]);
            }
            members.push((String::from_str("bank_account"), JsonValue::Obj(inner)));
        }
        let r = JsonValue::Obj(members);
        proof {
            let mv = crate::json::member_views_of(members@);
            let cm = create_order_members(*self);
            assert(mv.len() == cm.len());
            assert forall|k: int| 0 <= k < mv.len() implies mv[k] == cm[k] by {
                assert(mv[k] == (members@[k].0@, members@[k].1.jval()));
            }
            assert(mv =~= cm);
        }
        r
    }
}

impl Order {
    /// The request order creation sends: a POST to `/orders` carrying
    /// the serialized parameters.
    pub fn create_request(params: &CreateOrder<'_>) -> (r: RequestParams)
        ensures
            r.url@ == "/orders"@,
            r.version is None,
            r.data matches Some(d) && d@ == JVal::Obj(create_order_members(*params)),
    {
        RequestParams {
            url: String::from_str("/orders"),
            version: None,
            data: Some(params.to_json()),
        }
    }

    /// The request an order fetch sends: a GET of `/orders/{id}`.
    pub fn fetch_request(order_id: &OrderId) -> (r: RequestParams)
        ensures
            r.url@ == "/orders/"@ + order_id@,
            r.version is None,
            r.data is None,
    {
        let mut url = String::from_str("/orders/");
        url.append(order_id.as_str());
        RequestParams { url, version: None, data: None }
    }

    /// The request an order listing sends: a GET of `/orders` with the
    /// listing parameters as query payload.
    pub fn list_request(params: Option<&ListOrders<'_>>) -> (r: RequestParams)
        ensures
            r.url@ == "/orders"@,
            r.version is None,
            match params {
                Some(p) => r.data matches Some(d) && d@ == JVal::Obj(list_orders_members(*p)),
                None => r.data is None,
            },
    {
        RequestParams {
            url: String::from_str("/orders"),
            version: None,
            data: match params {
                Some(p) => Some(p.to_json()),
                None => None,
            },
        }
    }

    /// The request a payment listing for an order sends: a GET of
    /// `/orders/{id}/payments`.
    pub fn list_payments_request(order_id: &OrderId) -> (r: RequestParams)
        ensures
            r.url@ == "/orders/"@ + order_id@ + "/payments"@,
            r.version is None,
            r.data is None,
    {
        let mut url = String::from_str("/orders/");
        url.append(order_id.as_str());
        url.append("/payments");
        RequestParams { url, version: None, data: None }
    }

    /// The request an order update sends: a PATCH of `/orders/{id}`
    /// carrying the new notes under a `notes` member.
    pub fn update_request(order_id: &OrderId, notes: &Object) -> (r: RequestParams)
        ensures
            r.url@ == "/orders/"@ + order_id@,
            r.version is None,
            r.data matches Some(d) && d@ == JVal::Obj(
                seq![("notes"@, JVal::Obj(object_members(notes@)))],
            ),
    {
        let mut url = String::from_str("/orders/");
        url.append(order_id.as_str());
        let mut members: Vec<(String, JsonValue)> = Vec::new();
        members.push((String::from_str("notes"), crate::common::object_to_json(notes)));
        let d = JsonValue::Obj(members);
        proof {
            assert(d@->Obj_0 =~= seq![("notes"@, JVal::Obj(object_members(notes@)))]);
        }
        RequestParams { url, version: None, data: Some(d) }
    }

    /// Reads a whole order response body: the error shape wins, any
    /// other body must decode as an order.
    pub fn decode_response(body: &str) -> (r: RazorpayResult<Order>)
        ensures
            match crate::parse::sp_json(body@) {
                None => r matches Err(e) && e is SerializationError,
                Some(v) => match crate::api::sp_envelope(v) {
                    SpEnvelope::Failure(m) => r matches Err(RazorpayError::ApiError(e))
                        && e.model() == m,
                    SpEnvelope::Success(w) => match sp_order(w) {
                        Some(m) => r matches Ok(o) && o.model() == m,
                        None => r matches Err(e) && e is SerializationError,
                    },
                    SpEnvelope::Malformed => r matches Err(e) && e is SerializationError,
                },
            },
    {
        match crate::api::decode_response(body) {
            Err(e) => Err(e),
            Ok(v) => match Order::from_json(&v) {
                Some(o) => Ok(o),
                None => Err(
                    RazorpayError::SerializationError(
                        String::from_str("response body does not have the order shape"),
                    ),
                ),
            },
        }
    }
}

} // verus!
