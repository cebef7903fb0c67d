//! Customer entities and the parameter records of their calls.

use vstd::prelude::*;

use crate::api::RequestParams;
use crate::json::{JVal, JsonValue};

use crate::common::Object;
use crate::common::Timestamp;
use crate::ids::CustomerId;

verus! {

#[derive(Clone, Debug, PartialEq, Eq)]
pub struct Customer {
    pub id: CustomerId,
    pub name: String,
    pub contact: Option<String>,
    pub email: Option<String>,
    pub gstin: Option<String>,
    pub notes: Object,
    pub created_at: Timestamp,
}

#[derive(Clone, Debug, PartialEq, Eq, Default)]
pub struct CreateCustomer<'a> {
    pub name: &'a str,
    pub contact: Option<&'a str>,
    pub email: Option<&'a str>,
    pub fail_existing: Option<bool>,
    pub gstin: Option<&'a str>,
    pub notes: Option<Object>,
}

#[derive(Clone, Debug, PartialEq, Eq)]
pub struct UpdateCustomer<'a> {
    pub name: Option<&'a str>,
    pub email: Option<&'a str>,
    pub contact: Option<&'a str>,
}

#[derive(Clone, Debug, PartialEq, Eq, Default)]
pub struct ListCustomers {
    pub count: Option<u8>,
    pub skip: Option<u64>,
}

/// The members customer creation serializes to; the existence flag travels as the number one or zero.
pub open spec fn create_customer_members(c: CreateCustomer) -> Seq<(Seq<char>, JVal)> {
    seq![("name"@, JVal::Str(c.name@))] + (match c.contact {
        Some(s) => seq![("contact"@, JVal::Str(s@))],
        None => Seq::empty(),
    }) + (match c.email {
        Some(s) => seq![("email"@, JVal::Str(s@))],
        None => Seq::empty(),
    }) + (match c.fail_existing {
        Some(b) => seq![("fail_existing"@, JVal::Num(if b { "1"@ } else { "0"@ }))],
        None => Seq::empty(),
    }) + (match c.gstin {
        Some(s) => seq![("gstin"@, JVal::Str(s@))],
        None => Seq::empty(),
    }) + (match c.notes {
        Some(o) => seq![("notes"@, JVal::Obj(crate::common::object_members(o@)))],
        None => Seq::empty(),
    })
}

impl<'a> CreateCustomer<'a> {
    /// Serializes these parameters as their JSON body.
    #[verifier::rlimit(60)]
    pub fn to_json(&self) -> (r: JsonValue)
        ensures
            r@ == JVal::Obj(create_customer_members(*self)),
    {
        let mut members: Vec<(String, JsonValue)> = Vec::new();
        members.push((String::from_str("name"), JsonValue::Str(self.name.to_owned())));
        if let Some(s) = self.contact {
            members.push((String::from_str("contact"), JsonValue::Str(s.to_owned())));
        }
        if let Some(s) = self.email {
            members.push((String::from_str("email"), JsonValue::Str(s.to_owned())));
        }
        if let Some(b) = self.fail_existing {
            members.push(
                (
                    String::from_str("fail_existing"),
                    JsonValue::Num(String::from_str(if b { "1" } else { "0" })),
                ),
            );
        }
        if let Some(s) = self.gstin {
            members.push((String::from_str("gstin"), JsonValue::Str(s.to_owned())));
        }
        if let Some(o) = &self.notes {
            members.push((String::from_str("notes"), crate::common::object_to_json(o)));
        }
        let ghost cm = create_customer_members(*self);
        proof {
            let mv = crate::json::member_views_of(members@);
            assert(mv.len() == cm.len());
            assert forall|k: int| 0 <= k < mv.len() implies mv[k] == cm[k] by {
                assert(mv[k] == (members@[k].0@, members@[k].1.jval()));
            }
            assert(mv =~= cm);
        }
        JsonValue::Obj(members)
    }
}
/// The members a customer update serializes to; absent options are left out.
pub open spec fn update_customer_members(c: UpdateCustomer) -> Seq<(Seq<char>, JVal)> {
    (match c.name {
        Some(s) => seq![("name"@, JVal::Str(s@))],
        None => Seq::empty(),
    }) + (match c.email {
        Some(s) => seq![("email"@, JVal::Str(s@))],
        None => Seq::empty(),
    }) + (match c.contact {
        Some(s) => seq![("contact"@, JVal::Str(s@))],
        None => Seq::empty(),
    })
}

impl<'a> UpdateCustomer<'a> {
    /// Serializes these parameters as their JSON body.
    pub fn to_json(&self) -> (r: JsonValue)
        ensures
            r@ == JVal::Obj(update_customer_members(*self)),
    {
        let mut members: Vec<(String, JsonValue)> = Vec::new();
        if let Some(s) = self.name {
            members.push((String::from_str("name"), JsonValue::Str(s.to_owned())));
        }
        if let Some(s) = self.email {
            members.push((String::from_str("email"), JsonValue::Str(s.to_owned())));
        }
        if let Some(s) = self.contact {
            members.push((String::from_str("contact"), JsonValue::Str(s.to_owned())));
        }
        let ghost cm = update_customer_members(*self);
        proof {
            let mv = crate::json::member_views_of(members@);
            assert(mv.len() == cm.len());
            assert forall|k: int| 0 <= k < mv.len() implies mv[k] == cm[k] by {
                assert(mv[k] == (members@[k].0@, members@[k].1.jval()));
            }
            assert(mv =~= cm);
        }
        JsonValue::Obj(members)
    }
}
/// The members a customer listing serializes to: the page window.
pub open spec fn list_customers_members(c: ListCustomers) -> Seq<(Seq<char>, JVal)> {
    (match c.count {
        Some(n) => seq![("count"@, JVal::Num(crate::num::dec_str(n as int)))],
        None => Seq::empty(),
    }) + (match c.skip {
        Some(n) => seq![("skip"@, JVal::Num(crate::num::dec_str(n as int)))],
        None => Seq::empty(),
    })
}

impl ListCustomers {
    /// Serializes these parameters as their JSON body.
    pub fn to_json(&self) -> (r: JsonValue)
        ensures
            r@ == JVal::Obj(list_customers_members(*self)),
    {
        let mut members: Vec<(String, JsonValue)> = Vec::new();
        if let Some(n) = self.count {
            members.push(
                (String::from_str("count"), JsonValue::Num(crate::num::u64_to_string(n as u64))),
            );
        }
        if let Some(n) = self.skip {
            members.push(
                (String::from_str("skip"), JsonValue::Num(crate::num::u64_to_string(n))),
            );
        }
        let ghost cm = list_customers_members(*self);
        proof {
            let mv = crate::json::member_views_of(members@);
            assert(mv.len() == cm.len());
            assert forall|k: int| 0 <= k < mv.len() implies mv[k] == cm[k] by {
                assert(mv[k] == (members@[k].0@, members@[k].1.jval()));
            }
            assert(mv =~= cm);
        }
        JsonValue::Obj(members)
    }
}

impl Customer {
    /// The request customer creation sends: a POST to `/customers`.
    pub fn create_request(params: &CreateCustomer<'_>) -> (r: RequestParams)
        ensures
            r.url@ == "/customers"@,
            r.version is None,
            r.data matches Some(d) && d@ == JVal::Obj(create_customer_members(*params)),
    {
        RequestParams {
            url: String::from_str("/customers"),
            version: None,
            data: Some(params.to_json()),
        }
    }

    /// The request a customer update sends: a PUT of
    /// `/customers/{id}`.
    pub fn update_request(customer_id: &CustomerId, params: &UpdateCustomer<'_>) -> (r:
        RequestParams)
        ensures
            r.url@ == "/customers/"@ + customer_id@,
            r.version is None,
            r.data matches Some(d) && d@ == JVal::Obj(update_customer_members(*params)),
    {
        let mut url = String::from_str("/customers/");
        url.append(customer_id.as_str());
        RequestParams { url, version: None, data: Some(params.to_json()) }
    }

    /// The request a customer listing sends: a GET of `/customers`
    /// with the page window as query payload.
    pub fn list_request(params: Option<&ListCustomers>) -> (r: RequestParams)
        ensures
            r.url@ == "/customers"@,
            r.version is None,
            match params {
                Some(p) => r.data matches Some(d) && d@ == JVal::Obj(list_customers_members(*p)),
                None => r.data is None,
            },
    {
        RequestParams {
            url: String::from_str("/customers"),
            version: None,
            data: match params {
                Some(p) => Some(p.to_json()),
                None => None,
            },
        }
    }

    /// The request a customer fetch sends: a GET of
    /// `/customers/{id}`.
    pub fn fetch_request(customer_id: &CustomerId) -> (r: RequestParams)
        ensures
            r.url@ == "/customers/"@ + customer_id@,
            r.version is None,
            r.data is None,
    {
        let mut url = String::from_str("/customers/");
        url.append(customer_id.as_str());
        RequestParams { url, version: None, data: None }
    }
}


/// The mathematical content of a [`Customer`].
pub ghost struct CustomerModel {
    pub id: Seq<char>,
    pub name: Seq<char>,
    pub contact: Option<Seq<char>>,
    pub email: Option<Seq<char>>,
    pub gstin: Option<Seq<char>>,
    pub notes: Seq<(Seq<char>, Seq<char>)>,
    pub created_at: int,
}

impl Customer {
    pub open spec fn model(self) -> CustomerModel {
        CustomerModel {
            id: self.id@,
            name: self.name@,
            contact: crate::error::opt_view(self.contact),
            email: crate::error::opt_view(self.email),
            gstin: crate::error::opt_view(self.gstin),
            notes: crate::common::object_views(self.notes@),
            created_at: self.created_at as int,
        }
    }
}

/// What a customer body decodes to: the id with its prefix, the name,
/// the optional contact fields and the notes map.
pub open spec fn sp_customer(v: JVal) -> Option<CustomerModel> {
    match v {
        JVal::Obj(m) => {
            let id = crate::decode::sp_req_str(crate::json::obj_get(m, "id"@));
            let name = crate::decode::sp_req_str(crate::json::obj_get(m, "name"@));
            let contact = crate::error::sp_opt_str(crate::json::obj_get(m, "contact"@));
            let email = crate::error::sp_opt_str(crate::json::obj_get(m, "email"@));
            let gstin = crate::error::sp_opt_str(crate::json::obj_get(m, "gstin"@));
            let notes = crate::decode::sp_notes(crate::json::obj_get(m, "notes"@));
            let created_at = crate::decode::sp_req_i64(crate::json::obj_get(m, "created_at"@));
            if {
                &&& id is Some
                &&& name is Some
                &&& contact is Some
                &&& email is Some
                &&& gstin is Some
                &&& notes is Some
                &&& created_at is Some
                &&& crate::strutil::spec_is_prefix("cust_"@, id->Some_0)
            } {
                Some(
                    CustomerModel {
                        id: id->Some_0,
                        name: name->Some_0,
                        contact: contact->Some_0,
                        email: email->Some_0,
                        gstin: gstin->Some_0,
                        notes: notes->Some_0,
                        created_at: created_at->Some_0 as int,
                    },
                )
            } else {
                None
            }
        },
        _ => None,
    }
}

impl Customer {
    /// Decodes a customer body; `None` exactly where the body does
    /// not have the customer shape.
    pub fn from_json(v: &JsonValue) -> (r: Option<Customer>)
        ensures
            match (r, sp_customer(v@)) {
                (Some(c), Some(m)) => c.model() == m,
                (None, None) => true,
                _ => false,
            },
    {
        if !(v matches JsonValue::Obj(_)) {
            return None;
        }
        let id = match crate::decode::req_str(v.get_member("id")) {
            Some(s) => match CustomerId::parse(s.as_str()) {
                Ok(id) => id,
                Err(_) => { return None },
            },
            None => { return None },
        };
        let name = match crate::decode::req_str(v.get_member("name")) {
            Some(s) => s,
            None => { return None },
        };
        let contact = match crate::error::opt_str_member(v, "contact") {
            Some(o) => o,
            None => { return None },
        };
        let email = match crate::error::opt_str_member(v, "email") {
            Some(o) => o,
            None => { return None },
        };
        let gstin = match crate::error::opt_str_member(v, "gstin") {
            Some(o) => o,
            None => { return None },
        };
        let notes = match crate::decode::req_notes(v.get_member("notes")) {
            Some(o) => o,
            None => { return None },
        };
        let created_at = match crate::decode::req_i64(v.get_member("created_at")) {
            Some(n) => n,
            None => { return None },
        };
        Some(Customer { id, name, contact, email, gstin, notes, created_at })
    }

    /// Reads a whole customer response body: the error shape wins,
    /// any other body must decode as a customer.
    pub fn decode_response(body: &str) -> (r: crate::error::RazorpayResult<Customer>)
        ensures
            match crate::parse::sp_json(body@) {
                None => r matches Err(e) && e is SerializationError,
                Some(v) => match crate::api::sp_envelope(v) {
                    crate::api::SpEnvelope::Failure(m) => r matches Err(
                        crate::error::RazorpayError::ApiError(e),
                    ) && e.model() == m,
                    crate::api::SpEnvelope::Success(w) => match sp_customer(w) {
                        Some(m) => r matches Ok(c) && c.model() == m,
                        None => r matches Err(e) && e is SerializationError,
                    },
                    crate::api::SpEnvelope::Malformed => r matches Err(e)
                        && e is SerializationError,
                },
            },
    {
        match crate::api::decode_response(body) {
            Err(e) => Err(e),
            Ok(v) => match Customer::from_json(&v) {
                Some(c) => Ok(c),
                None => Err(
                    crate::error::RazorpayError::SerializationError(
                        String::from_str("response body does not have the customer shape"),
                    ),
                ),
            },
        }
    }
}

} // verus!
