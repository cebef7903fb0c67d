//! Billable items and the parameter records of their calls.

use vstd::prelude::*;

use crate::api::RequestParams;
use crate::json::{JVal, JsonValue};

use crate::addon::Addon;
use crate::common::Currency;
use crate::common::Filter;
use crate::common::Timestamp;
use crate::ids::ItemId;
use crate::invoice::Invoice;
use crate::plan::Plan;

verus! {

#[derive(Clone, Debug, PartialEq, Eq)]
pub enum ItemType {
    Plan,
    Addon,
    Invoice,
}

#[derive(Clone, Debug, PartialEq, Eq)]
pub struct Item {
    pub id: ItemId,
    pub name: String,
    pub active: bool,
    pub amount: u64,
    pub unit_amount: u64,
    pub currency: Currency,
    pub description: Option<String>,
    pub created_at: Timestamp,
    pub updated_at: Option<Timestamp>,
    pub type_: ItemType,
    pub unit: Option<u64>,
    pub tax_inclusive: Option<bool>,
    pub hsn_code: Option<u32>,
    pub sac_code: Option<u32>,
    pub tax_rate: Option<String>,
    pub tax_id: Option<String>,
    pub tax_group_id: Option<String>,
}

#[derive(Clone, Debug, PartialEq, Eq, Default)]
pub struct CreateItem<'a> {
    pub name: &'a str,
    pub description: Option<&'a str>,
    pub amount: u64,
    pub currency: Currency,
}

#[derive(Clone, Debug, PartialEq, Eq, Default)]
pub struct UpdateItem<'a> {
    pub name: Option<&'a str>,
    pub description: Option<&'a str>,
    pub amount: Option<u64>,
    pub currency: Option<Currency>,
    pub active: Option<bool>,
}

#[derive(Clone, Debug, PartialEq, Eq, Default)]
pub struct ListItems {
    pub active: Option<bool>,
    pub filter: Option<Filter>,
}

/// The members item creation serializes to, in declaration order.
pub open spec fn create_item_members(c: CreateItem) -> Seq<(Seq<char>, JVal)> {
    seq![("name"@, JVal::Str(c.name@))] + (match c.description {
        Some(s) => seq![("description"@, JVal::Str(s@))],
        None => Seq::empty(),
    }) + seq![
        ("amount"@, JVal::Num(crate::num::dec_str(c.amount as int))),
        ("currency"@, JVal::Str(crate::common::currency_code(c.currency))),
    ]
}

impl<'a> CreateItem<'a> {
    /// Serializes these parameters as their JSON body.
    pub fn to_json(&self) -> (r: JsonValue)
        ensures
            r@ == JVal::Obj(create_item_members(*self)),
    {
        let mut members: Vec<(String, JsonValue)> = Vec::new();
        members.push((String::from_str("name"), JsonValue::Str(self.name.to_owned())));
        if let Some(s) = self.description {
            members.push((String::from_str("description"), JsonValue::Str(s.to_owned())));
        }
        members.push(
            (String::from_str("amount"), JsonValue::Num(crate::num::u64_to_string(self.amount))),
        );
        members.push(
            (
                String::from_str("currency"),
                JsonValue::Str(String::from_str(self.currency.as_str())),
            ),
        );
        let ghost cm = create_item_members(*self);
        proof {
            let mv = crate::json::member_views_of(members@);
            assert(mv.len() == cm.len());
            assert forall|k: int| 0 <= k < mv.len() implies mv[k] == cm[k] by {
                assert(mv[k] == (members@[k].0@, members@[k].1.jval()));
            }
            assert(mv =~= cm);
        }
        JsonValue::Obj(members)
    }
}
/// The members an item update serializes to; absent options are left out.
pub open spec fn update_item_members(c: UpdateItem) -> Seq<(Seq<char>, JVal)> {
    (match c.name {
        Some(s) => seq![("name"@, JVal::Str(s@))],
        None => Seq::empty(),
    }) + (match c.description {
        Some(s) => seq![("description"@, JVal::Str(s@))],
        None => Seq::empty(),
    }) + (match c.amount {
        Some(a) => seq![("amount"@, JVal::Num(crate::num::dec_str(a as int)))],
        None => Seq::empty(),
    }) + (match c.currency {
        Some(cur) => seq![("currency"@, JVal::Str(crate::common::currency_code(cur)))],
        None => Seq::empty(),
    }) + (match c.active {
        Some(b) => seq![("active"@, JVal::Bool(b))],
        None => Seq::empty(),
    })
}

impl<'a> UpdateItem<'a> {
    /// Serializes these parameters as their JSON body.
    #[verifier::rlimit(60)]
    pub fn to_json(&self) -> (r: JsonValue)
        ensures
            r@ == JVal::Obj(update_item_members(*self)),
    {
        let mut members: Vec<(String, JsonValue)> = Vec::new();
        if let Some(s) = self.name {
            members.push((String::from_str("name"), JsonValue::Str(s.to_owned())));
        }
        if let Some(s) = self.description {
            members.push((String::from_str("description"), JsonValue::Str(s.to_owned())));
        }
        if let Some(a) = self.amount {
            members.push(
                (String::from_str("amount"), JsonValue::Num(crate::num::u64_to_string(a))),
            );
        }
        if let Some(cur) = &self.currency {
            members.push(
                (String::from_str("currency"), JsonValue::Str(String::from_str(cur.as_str()))),
            );
        }
        if let Some(b) = self.active {
            members.push((String::from_str("active"), JsonValue::Bool(b)));
        }
        let ghost cm = update_item_members(*self);
        proof {
            let mv = crate::json::member_views_of(members@);
            assert(mv.len() == cm.len());
            assert forall|k: int| 0 <= k < mv.len() implies mv[k] == cm[k] by {
                assert(mv[k] == (members@[k].0@, members@[k].1.jval()));
            }
            assert(mv =~= cm);
        }
        JsonValue::Obj(members)
    }
}

/// The members an item listing serializes to: the active flag, then the filter flattened in place.
pub open spec fn list_items_members(c: ListItems) -> Seq<(Seq<char>, JVal)> {
    (match c.active {
        Some(b) => seq![("active"@, JVal::Bool(b))],
        None => Seq::empty(),
    }) + (match c.filter {
        Some(f) => crate::common::filter_members(f),
        None => Seq::empty(),
    })
}

impl ListItems {
    /// Serializes these parameters as their JSON body.
    pub fn to_json(&self) -> (r: JsonValue)
        ensures
            r@ == JVal::Obj(list_items_members(*self)),
    {
        let mut members: Vec<(String, JsonValue)> = Vec::new();
        if let Some(b) = self.active {
            members.push((String::from_str("active"), JsonValue::Bool(b)));
        }
        if let Some(f) = &self.filter {
            if let Some(t) = f.from {
                members.push(
                    (String::from_str("from"), JsonValue::Num(crate::num::i64_to_string(t))),
                );
            }
            if let Some(t) = f.to {
                members.push(
                    (String::from_str("to"), JsonValue::Num(crate::num::i64_to_string(t))),
                );
            }
            if let Some(n) = f.count {
                members.push(
                    (
                        String::from_str("count"),
                        JsonValue::Num(crate::num::u64_to_string(n as u64)),
                    ),
                );
            }
            if let Some(n) = f.skip {
                members.push(
                    (
                        String::from_str("skip"),
                        JsonValue::Num(crate::num::u64_to_string(n as u64)),
                    ),
                );
            }
        }
        let ghost cm = list_items_members(*self);
        proof {
            let mv = crate::json::member_views_of(members@);
            assert(mv.len() == cm.len());
            assert forall|k: int| 0 <= k < mv.len() implies mv[k] == cm[k] by {
                assert(mv[k] == (members@[k].0@, members@[k].1.jval()));
            }
            assert(mv =~= cm);
        }
        JsonValue::Obj(members)
    }
}

impl Item {
    /// The request item creation sends: a POST to `/items`.
    pub fn create_request(params: &CreateItem<'_>) -> (r: RequestParams)
        ensures
            r.url@ == "/items"@,
            r.version is None,
            r.data matches Some(d) && d@ == JVal::Obj(create_item_members(*params)),
    {
        RequestParams {
            url: String::from_str("/items"),
            version: None,
            data: Some(params.to_json()),
        }
    }

    /// The request an item fetch sends: a GET of `/items/{id}`.
    pub fn fetch_request(item_id: &ItemId) -> (r: RequestParams)
        ensures
            r.url@ == "/items/"@ + item_id@,
            r.version is None,
            r.data is None,
    {
        let mut url = String::from_str("/items/");
        url.append(item_id.as_str());
        RequestParams { url, version: None, data: None }
    }

    /// The request an item update sends: a PATCH of `/items/{id}`.
    pub fn update_request(item_id: &ItemId, params: &UpdateItem<'_>) -> (r: RequestParams)
        ensures
            r.url@ == "/items/"@ + item_id@,
            r.version is None,
            r.data matches Some(d) && d@ == JVal::Obj(update_item_members(*params)),
    {
        let mut url = String::from_str("/items/");
        url.append(item_id.as_str());
        RequestParams { url, version: None, data: Some(params.to_json()) }
    }

    /// The request an item removal sends: a DELETE of `/items/{id}`.
    pub fn delete_request(item_id: &ItemId) -> (r: RequestParams)
        ensures
            r.url@ == "/items/"@ + item_id@,
            r.version is None,
            r.data is None,
    {
        let mut url = String::from_str("/items/");
        url.append(item_id.as_str());
        RequestParams { url, version: None, data: None }
    }

    /// The request an item listing sends: a GET of `/items` with the
    /// listing parameters as query payload.
    pub fn list_request(params: Option<&ListItems>) -> (r: RequestParams)
        ensures
            r.url@ == "/items"@,
            r.version is None,
            match params {
                Some(p) => r.data matches Some(d) && d@ == JVal::Obj(list_items_members(*p)),
                None => r.data is None,
            },
    {
        RequestParams {
            url: String::from_str("/items"),
            version: None,
            data: match params {
                Some(p) => Some(p.to_json()),
                None => None,
            },
        }
    }
}


/// The item kind a wire name denotes, if any.
pub open spec fn spec_item_type_from(s: Seq<char>) -> Option<ItemType> {
    if s == "plan"@ {
        Some(ItemType::Plan)
    } else if s == "addon"@ {
        Some(ItemType::Addon)
    } else if s == "invoice"@ {
        Some(ItemType::Invoice)
    } else {
        None
    }
}

impl ItemType {
    /// Accepts exactly the wire names of the item kinds.
    pub fn parse(s: &str) -> (r: Option<ItemType>)
        ensures
            r == spec_item_type_from(s@),
    {
        if crate::strutil::str_eq(s, "plan") {
            Some(ItemType::Plan)
        } else if crate::strutil::str_eq(s, "addon") {
            Some(ItemType::Addon)
        } else if crate::strutil::str_eq(s, "invoice") {
            Some(ItemType::Invoice)
        } else {
            None
        }
    }
}

/// The mathematical content of an [`Item`].
pub ghost struct ItemModel {
    pub id: Seq<char>,
    pub name: Seq<char>,
    pub active: bool,
    pub amount: u64,
    pub unit_amount: u64,
    pub currency: Currency,
    pub description: Option<Seq<char>>,
    pub created_at: int,
    pub updated_at: Option<int>,
    pub type_: ItemType,
    pub unit: Option<u64>,
    pub tax_inclusive: Option<bool>,
    pub hsn_code: Option<u32>,
    pub sac_code: Option<u32>,
    pub tax_rate: Option<Seq<char>>,
    pub tax_id: Option<Seq<char>>,
    pub tax_group_id: Option<Seq<char>>,
}

impl Item {
    pub open spec fn model(self) -> ItemModel {
        ItemModel {
            id: self.id@,
            name: self.name@,
            active: self.active,
            amount: self.amount,
            unit_amount: self.unit_amount,
            currency: self.currency,
            description: crate::error::opt_view(self.description),
            created_at: self.created_at as int,
            updated_at: match self.updated_at {
                Some(t) => Some(t as int),
                None => None,
            },
            type_: self.type_,
            unit: self.unit,
            tax_inclusive: self.tax_inclusive,
            hsn_code: self.hsn_code,
            sac_code: self.sac_code,
            tax_rate: crate::error::opt_view(self.tax_rate),
            tax_id: crate::error::opt_view(self.tax_id),
            tax_group_id: crate::error::opt_view(self.tax_group_id),
        }
    }
}

/// What an item body decodes to: the id with its prefix, the amounts,
/// the kind, and the optional tax context.
pub open spec fn sp_item(v: JVal) -> Option<ItemModel> {
    match v {
        JVal::Obj(m) => {
            let id = crate::decode::sp_req_str(crate::json::obj_get(m, "id"@));
            let name = crate::decode::sp_req_str(crate::json::obj_get(m, "name"@));
            let active = crate::decode::sp_req_bool(crate::json::obj_get(m, "active"@));
            let amount = crate::decode::sp_req_u64(crate::json::obj_get(m, "amount"@));
            let unit_amount = crate::decode::sp_req_u64(crate::json::obj_get(m, "unit_amount"@));
            let currency = match crate::decode::sp_req_str(crate::json::obj_get(m, "currency"@)) {
                Some(s) => crate::common::spec_currency_from(s),
                None => None,
            };
            let description = crate::error::sp_opt_str(crate::json::obj_get(m, "description"@));
            let created_at = crate::decode::sp_req_i64(crate::json::obj_get(m, "created_at"@));
            let updated_at = crate::decode::sp_opt_i64(crate::json::obj_get(m, "updated_at"@));
            let type_ = match crate::decode::sp_req_str(crate::json::obj_get(m, "type"@)) {
                Some(s) => spec_item_type_from(s),
                None => None,
            };
            let unit = crate::decode::sp_opt_u64(crate::json::obj_get(m, "unit"@));
            let tax_inclusive = crate::decode::sp_opt_bool(
                crate::json::obj_get(m, "tax_inclusive"@),
            );
            let hsn_code = crate::decode::sp_opt_u32(crate::json::obj_get(m, "hsn_code"@));
            let sac_code = crate::decode::sp_opt_u32(crate::json::obj_get(m, "sac_code"@));
            let tax_rate = crate::error::sp_opt_str(crate::json::obj_get(m, "tax_rate"@));
            let tax_id = crate::error::sp_opt_str(crate::json::obj_get(m, "tax_id"@));
            let tax_group_id = crate::error::sp_opt_str(crate::json::obj_get(m, "tax_group_id"@));
            if {
                &&& id is Some
                &&& name is Some
                &&& active is Some
                &&& amount is Some
                &&& unit_amount is Some
                &&& currency is Some
                &&& description is Some
                &&& created_at is Some
                &&& updated_at is Some
                &&& type_ is Some
                &&& unit is Some
                &&& tax_inclusive is Some
                &&& hsn_code is Some
                &&& sac_code is Some
                &&& tax_rate is Some
                &&& tax_id is Some
                &&& tax_group_id is Some
                &&& crate::strutil::spec_is_prefix("item_"@, id->Some_0)
            } {
                Some(
                    ItemModel {
                        id: id->Some_0,
                        name: name->Some_0,
                        active: active->Some_0,
                        amount: amount->Some_0,
                        unit_amount: unit_amount->Some_0,
                        currency: currency->Some_0,
                        description: description->Some_0,
                        created_at: created_at->Some_0 as int,
                        updated_at: match updated_at->Some_0 {
                            Some(t) => Some(t as int),
                            None => None,
                        },
                        type_: type_->Some_0,
                        unit: unit->Some_0,
                        tax_inclusive: tax_inclusive->Some_0,
                        hsn_code: hsn_code->Some_0,
                        sac_code: sac_code->Some_0,
                        tax_rate: tax_rate->Some_0,
                        tax_id: tax_id->Some_0,
                        tax_group_id: tax_group_id->Some_0,
                    },
                )
            } else {
                None
            }
        },
        _ => None,
    }
}

impl Item {
    /// Decodes an item body; `None` exactly where the body does not
    /// have the item shape.
    #[verifier::rlimit(100)]
    pub fn from_json(v: &JsonValue) -> (r: Option<Item>)
        ensures
            match (r, sp_item(v@)) {
                (Some(it), Some(m)) => it.model() == m,
                (None, None) => true,
                _ => false,
            },
    {
        if !(v matches JsonValue::Obj(_)) {
            return None;
        }
        let id = match crate::decode::req_str(v.get_member("id")) {
            Some(s) => match ItemId::parse(s.as_str()) {
                Ok(id) => id,
                Err(_) => { return None },
            },
            None => { return None },
        };
        let name = match crate::decode::req_str(v.get_member("name")) {
            Some(s) => s,
            None => { return None },
        };
        let active = match crate::decode::req_bool(v.get_member("active")) {
            Some(b) => b,
            None => { return None },
        };
        let amount = match crate::decode::req_u64(v.get_member("amount")) {
            Some(n) => n,
            None => { return None },
        };
        let unit_amount = match crate::decode::req_u64(v.get_member("unit_amount")) {
            Some(n) => n,
            None => { return None },
        };
        let currency = match crate::decode::req_str(v.get_member("currency")) {
            Some(s) => match Currency::parse(s.as_str()) {
                Some(c) => c,
                None => { return None },
            },
            None => { return None },
        };
        let description = match crate::error::opt_str_member(v, "description") {
            Some(o) => o,
            None => { return None },
        };
        let created_at = match crate::decode::req_i64(v.get_member("created_at")) {
            Some(n) => n,
            None => { return None },
        };
        let updated_at = match crate::decode::opt_i64(v.get_member("updated_at")) {
            Some(o) => o,
            None => { return None },
        };
        let type_ = match crate::decode::req_str(v.get_member("type")) {
            Some(s) => match ItemType::parse(s.as_str()) {
                Some(t) => t,
                None => { return None },
            },
            None => { return None },
        };
        let unit = match crate::decode::opt_u64(v.get_member("unit")) {
            Some(o) => o,
            None => { return None },
        };
        let tax_inclusive = match crate::decode::opt_bool(v.get_member("tax_inclusive")) {
            Some(o) => o,
            None => { return None },
        };
        let hsn_code = match crate::decode::opt_u32(v.get_member("hsn_code")) {
            Some(o) => o,
            None => { return None },
        };
        let sac_code = match crate::decode::opt_u32(v.get_member("sac_code")) {
            Some(o) => o,
            None => { return None },
        };
        let tax_rate = match crate::error::opt_str_member(v, "tax_rate") {
            Some(o) => o,
            None => { return None },
        };
        let tax_id = match crate::error::opt_str_member(v, "tax_id") {
            Some(o) => o,
            None => { return None },
        };
        let tax_group_id = match crate::error::opt_str_member(v, "tax_group_id") {
            Some(o) => o,
            None => { return None },
        };
        Some(
            Item {
                id,
                name,
                active,
                amount,
                unit_amount,
                currency,
                description,
                created_at,
                updated_at,
                type_,
                unit,
                tax_inclusive,
                hsn_code,
                sac_code,
                tax_rate,
                tax_id,
                tax_group_id,
            },
        )
    }

    /// Reads a whole item response body: the error shape wins, any
    /// other body must decode as an item.
    pub fn decode_response(body: &str) -> (r: crate::error::RazorpayResult<Item>)
        ensures
            match crate::parse::sp_json(body@) {
                None => r matches Err(e) && e is SerializationError,
                Some(v) => match crate::api::sp_envelope(v) {
                    crate::api::SpEnvelope::Failure(m) => r matches Err(
                        crate::error::RazorpayError::ApiError(e),
                    ) && e.model() == m,
                    crate::api::SpEnvelope::Success(w) => match sp_item(w) {
                        Some(m) => r matches Ok(it) && it.model() == m,
                        None => r matches Err(e) && e is SerializationError,
                    },
                    crate::api::SpEnvelope::Malformed => r matches Err(e)
                        && e is SerializationError,
                },
            },
    {
        match crate::api::decode_response(body) {
            Err(e) => Err(e),
            Ok(v) => match Item::from_json(&v) {
                Some(it) => Ok(it),
                None => Err(
                    crate::error::RazorpayError::SerializationError(
                        String::from_str("response body does not have the item shape"),
                    ),
                ),
            },
        }
    }
}

} // verus!
