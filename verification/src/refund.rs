//! Refund entities and the parameter records of their calls.

use vstd::prelude::*;

use crate::api::RequestParams;
use crate::common::Filter;
use crate::json::JVal;

use crate::common::Currency;
use crate::common::Object;
use crate::common::Timestamp;
use crate::entity::RefundEntity;
use crate::ids::BatchId;
use crate::ids::PaymentId;
use crate::ids::RefundId;
use crate::json::JsonValue;

verus! {

#[derive(Clone, Debug, PartialEq, Eq, Default)]
pub enum RefundSpeed {
    #[default]
    Normal,
    Optimum,
}

#[derive(Clone, Debug, PartialEq, Eq)]
pub enum RefundStatus {
    Pending,
    Processed,
    Failed,
}

#[derive(Clone, Debug)]
pub struct Refund {
    pub id: RefundId,
    pub entity: RefundEntity,
    pub amount: u64,
    pub currency: Currency,
    pub payment_id: PaymentId,
    pub speed: RefundSpeed,
    pub created_at: Timestamp,
    pub batch_id: Option<BatchId>,
    pub notes: Object,
    pub receipt: Option<String>,
    /// Kept as a raw value: the service's documentation does not
    /// settle this field's schema.
    pub acquirer_data: JsonValue,
    pub status: RefundStatus,
    pub speed_requested: Option<RefundSpeed>,
    pub speed_processed: Option<RefundSpeed>,
}

#[derive(Clone, Debug, PartialEq, Eq, Default)]
pub struct CreateRefund<'a> {
    pub amount: Option<u64>,
    pub speed: Option<RefundSpeed>,
    pub notes: Option<Object>,
    pub receipt: Option<&'a str>,
}


/// The wire name of a refund speed.
pub open spec fn refund_speed_code(s: RefundSpeed) -> Seq<char> {
    match s {
        RefundSpeed::Normal => "normal"@,
        RefundSpeed::Optimum => "optimum"@,
    }
}

impl RefundSpeed {
    /// The wire name of this speed.
    pub fn as_str(&self) -> (r: &'static str)
        ensures
            r@ == refund_speed_code(*self),
    {
        match self {
            RefundSpeed::Normal => "normal",
            RefundSpeed::Optimum => "optimum",
        }
    }
}

/// The members refund creation serializes to; absent options are left
/// out.
pub open spec fn create_refund_members(c: CreateRefund) -> Seq<(Seq<char>, JVal)> {
    (match c.amount {
        Some(a) => seq![("amount"@, JVal::Num(crate::num::dec_str(a as int)))],
        None => Seq::empty(),
    }) + (match c.speed {
        Some(sp) => seq![("speed"@, JVal::Str(refund_speed_code(sp)))],
        None => Seq::empty(),
    }) + (match c.notes {
        Some(o) => seq![("notes"@, JVal::Obj(crate::common::object_members(o@)))],
        None => Seq::empty(),
    }) + (match c.receipt {
        Some(rc) => seq![("receipt"@, JVal::Str(rc@))],
        None => Seq::empty(),
    })
}

impl<'a> CreateRefund<'a> {
    /// Serializes the refund parameters as their JSON body.
    #[verifier::rlimit(60)]
    pub fn to_json(&self) -> (r: JsonValue)
        ensures
            r@ == JVal::Obj(create_refund_members(*self)),
    {
        let mut members: Vec<(String, JsonValue)> = Vec::new();
        if let Some(a) = self.amount {
            members.push(
                (String::from_str("amount"), JsonValue::Num(crate::num::u64_to_string(a))),
            );
        }
        if let Some(sp) = &self.speed {
            members.push(
                (String::from_str("speed"), JsonValue::Str(String::from_str(sp.as_str()))),
            );
        }
        if let Some(o) = &self.notes {
            members.push((String::from_str("notes"), crate::common::object_to_json(o)));
        }
        if let Some(rc) = self.receipt {
            members.push((String::from_str("receipt"), JsonValue::Str(rc.to_owned())));
        }
        let ghost cm = create_refund_members(*self);
        proof {
            let mv = crate::json::member_views_of(members@);
            assert(mv.len() == cm.len());
            assert forall|k: int| 0 <= k < mv.len() implies mv[k] == cm[k] by {
                assert(mv[k] == (members@[k].0@, members@[k].1.jval()));
            }
            assert(mv =~= cm);
        }
        JsonValue::Obj(members)
    }
}

impl Refund {
    /// The request a refund listing sends: a GET of `/refunds` with
    /// the filter as query payload.
    pub fn list_request(filter: Option<&Filter>) -> (r: RequestParams)
        ensures
            r.url@ == "/refunds"@,
            r.version is None,
            match filter {
                Some(f) => r.data matches Some(d) && d@ == JVal::Obj(
                    crate::common::filter_members(*f),
                ),
                None => r.data is None,
            },
    {
        RequestParams {
            url: String::from_str("/refunds"),
            version: None,
            data: match filter {
                Some(f) => Some(f.to_json()),
                None => None,
            },
        }
    }

    /// The request a refund fetch sends: a GET of `/refunds/{id}`.
    pub fn fetch_request(refund_id: &RefundId) -> (r: RequestParams)
        ensures
            r.url@ == "/refunds/"@ + refund_id@,
            r.version is None,
            r.data is None,
    {
        let mut url = String::from_str("/refunds/");
        url.append(refund_id.as_str());
        RequestParams { url, version: None, data: None }
    }

    /// The request a refund update sends: a PATCH of `/refunds/{id}`
    /// carrying the new notes under a `notes` member.
    pub fn update_request(refund_id: &RefundId, notes: &Object) -> (r: RequestParams)
        ensures
            r.url@ == "/refunds/"@ + refund_id@,
            r.version is None,
            r.data matches Some(d) && d@ == JVal::Obj(
                seq![("notes"@, JVal::Obj(crate::common::object_members(notes@)))],
            ),
    {
        let mut url = String::from_str("/refunds/");
        url.append(refund_id.as_str());
        let mut members: Vec<(String, JsonValue)> = Vec::new();
        members.push((String::from_str("notes"), crate::common::object_to_json(notes)));
        let d = JsonValue::Obj(members);
        proof {
            assert(d@->Obj_0 =~= seq![
                ("notes"@, JVal::Obj(crate::common::object_members(notes@))),
            ]);
        }
        RequestParams { url, version: None, data: Some(d) }
    }
}


/// The refund state a wire name denotes, if any.
pub open spec fn spec_refund_status_from(s: Seq<char>) -> Option<RefundStatus> {
    if s == "pending"@ {
        Some(RefundStatus::Pending)
    } else if s == "processed"@ {
        Some(RefundStatus::Processed)
    } else if s == "failed"@ {
        Some(RefundStatus::Failed)
    } else {
        None
    }
}

impl RefundStatus {
    /// Accepts exactly the wire names of the refund states.
    pub fn parse(s: &str) -> (r: Option<RefundStatus>)
        ensures
            r == spec_refund_status_from(s@),
    {
        if crate::strutil::str_eq(s, "pending") {
            Some(RefundStatus::Pending)
        } else if crate::strutil::str_eq(s, "processed") {
            Some(RefundStatus::Processed)
        } else if crate::strutil::str_eq(s, "failed") {
            Some(RefundStatus::Failed)
        } else {
            None
        }
    }
}

/// The refund speed a wire name denotes, if any.
pub open spec fn spec_refund_speed_from(s: Seq<char>) -> Option<RefundSpeed> {
    if s == "normal"@ {
        Some(RefundSpeed::Normal)
    } else if s == "optimum"@ {
        Some(RefundSpeed::Optimum)
    } else {
        None
    }
}

impl RefundSpeed {
    /// Accepts exactly the wire names of the speeds.
    pub fn parse(s: &str) -> (r: Option<RefundSpeed>)
        ensures
            r == spec_refund_speed_from(s@),
    {
        if crate::strutil::str_eq(s, "normal") {
            Some(RefundSpeed::Normal)
        } else if crate::strutil::str_eq(s, "optimum") {
            Some(RefundSpeed::Optimum)
        } else {
            None
        }
    }
}

/// An optional refund-speed member: absent or `null` count as absent,
/// a known wire name is kept, anything else is malformed.
pub open spec fn sp_opt_speed(v: Option<JVal>) -> Option<Option<RefundSpeed>> {
    match crate::error::sp_opt_str(v) {
        Some(None) => Some(None),
        Some(Some(s)) => match spec_refund_speed_from(s) {
            Some(x) => Some(Some(x)),
            None => None,
        },
        None => None,
    }
}

/// The mathematical content of a [`Refund`].
pub ghost struct RefundModel {
    pub id: Seq<char>,
    pub amount: u64,
    pub currency: Currency,
    pub payment_id: Seq<char>,
    pub speed: RefundSpeed,
    pub created_at: int,
    pub batch_id: Option<Seq<char>>,
    pub notes: Seq<(Seq<char>, Seq<char>)>,
    pub receipt: Option<Seq<char>>,
    pub acquirer_data: JVal,
    pub status: RefundStatus,
    pub speed_requested: Option<RefundSpeed>,
    pub speed_processed: Option<RefundSpeed>,
}

impl Refund {
    pub open spec fn model(self) -> RefundModel {
        RefundModel {
            id: self.id@,
            amount: self.amount,
            currency: self.currency,
            payment_id: self.payment_id@,
            speed: self.speed,
            created_at: self.created_at as int,
            batch_id: match self.batch_id {
                Some(b) => Some(b@),
                None => None,
            },
            notes: crate::common::object_views(self.notes@),
            receipt: crate::error::opt_view(self.receipt),
            acquirer_data: self.acquirer_data@,
            status: self.status,
            speed_requested: self.speed_requested,
            speed_processed: self.speed_processed,
        }
    }
}

/// What a refund body decodes to.  The `entity` tag must read
/// `refund`, ids must carry their prefixes, and the acquirer record
/// is kept raw, as its schema is not settled upstream.
pub open spec fn sp_refund(v: JVal) -> Option<RefundModel> {
    match v {
        JVal::Obj(m) => {
            let id = crate::decode::sp_req_str(crate::json::obj_get(m, "id"@));
            let amount = crate::decode::sp_req_u64(crate::json::obj_get(m, "amount"@));
            let currency = match crate::decode::sp_req_str(crate::json::obj_get(m, "currency"@)) {
                Some(s) => crate::common::spec_currency_from(s),
                None => None,
            };
            let payment_id = crate::decode::sp_req_str(crate::json::obj_get(m, "payment_id"@));
            let speed = match crate::decode::sp_req_str(crate::json::obj_get(m, "speed"@)) {
                Some(s) => spec_refund_speed_from(s),
                None => None,
            };
            let created_at = crate::decode::sp_req_i64(crate::json::obj_get(m, "created_at"@));
            let batch_id = crate::error::sp_opt_str(crate::json::obj_get(m, "batch_id"@));
            let notes = crate::decode::sp_notes(crate::json::obj_get(m, "notes"@));
            let receipt = crate::error::sp_opt_str(crate::json::obj_get(m, "receipt"@));
            let acquirer_data = crate::json::obj_get(m, "acquirer_data"@);
            let status = match crate::decode::sp_req_str(crate::json::obj_get(m, "status"@)) {
                Some(s) => spec_refund_status_from(s),
                None => None,
            };
            let speed_requested = sp_opt_speed(crate::json::obj_get(m, "speed_requested"@));
            let speed_processed = sp_opt_speed(crate::json::obj_get(m, "speed_processed"@));
            if {
                &&& crate::decode::sp_req_str(crate::json::obj_get(m, "entity"@)) == Some(
                    "refund"@,
                )
                &&& id is Some
                &&& amount is Some
                &&& currency is Some
                &&& payment_id is Some
                &&& speed is Some
                &&& created_at is Some
                &&& batch_id is Some
                &&& notes is Some
                &&& receipt is Some
                &&& acquirer_data is Some
                &&& status is Some
                &&& speed_requested is Some
                &&& speed_processed is Some
                &&& crate::strutil::spec_is_prefix("rfnd_"@, id->Some_0)
                &&& crate::strutil::spec_is_prefix("pay_"@, payment_id->Some_0)
                &&& match batch_id->Some_0 {
                    Some(b) => crate::strutil::spec_is_prefix("batch_"@, b),
                    None => true,
                }
            } {
                Some(
                    RefundModel {
                        id: id->Some_0,
                        amount: amount->Some_0,
                        currency: currency->Some_0,
                        payment_id: payment_id->Some_0,
                        speed: speed->Some_0,
                        created_at: created_at->Some_0 as int,
                        batch_id: batch_id->Some_0,
                        notes: notes->Some_0,
                        receipt: receipt->Some_0,
                        acquirer_data: acquirer_data->Some_0,
                        status: status->Some_0,
                        speed_requested: speed_requested->Some_0,
                        speed_processed: speed_processed->Some_0,
                    },
                )
            } else {
                None
            }
        },
        _ => None,
    }
}

impl Refund {
    /// Decodes a refund body; `None` exactly where the body does not
    /// have the refund shape.
    #[verifier::rlimit(100)]
    pub fn from_json(v: &JsonValue) -> (r: Option<Refund>)
        ensures
            match (r, sp_refund(v@)) {
                (Some(rf), Some(m)) => rf.model() == m,
                (None, None) => true,
                _ => false,
            },
    {
        if !(v matches JsonValue::Obj(_)) {
            return None;
        }
        let entity = match crate::decode::req_str(v.get_member("entity")) {
            Some(s) => match crate::entity::RefundEntity::parse(s.as_str()) {
                Ok(e) => e,
                Err(_) => { return None },
            },
            None => { return None },
        };
        let id = match crate::decode::req_str(v.get_member("id")) {
            Some(s) => match RefundId::parse(s.as_str()) {
                Ok(id) => id,
                Err(_) => { return None },
            },
            None => { return None },
        };
        let amount = match crate::decode::req_u64(v.get_member("amount")) {
            Some(n) => n,
            None => { return None },
        };
        let currency = match crate::decode::req_str(v.get_member("currency")) {
            Some(s) => match Currency::parse(s.as_str()) {
                Some(c) => c,
                None => { return None },
            },
            None => { return None },
        };
        let payment_id = match crate::decode::req_str(v.get_member("payment_id")) {
            Some(s) => match PaymentId::parse(s.as_str()) {
                Ok(p) => p,
                Err(_) => { return None },
            },
            None => { return None },
        };
        let speed = match crate::decode::req_str(v.get_member("speed")) {
            Some(s) => match RefundSpeed::parse(s.as_str()) {
                Some(sp) => sp,
                None => { return None },
            },
            None => { return None },
        };
        let created_at = match crate::decode::req_i64(v.get_member("created_at")) {
            Some(n) => n,
            None => { return None },
        };
        let batch_id = match crate::error::opt_str_member(v, "batch_id") {
            Some(Some(s)) => match BatchId::parse(s.as_str()) {
                Ok(b) => Some(b),
                Err(_) => { return None },
            },
            Some(None) => None,
            None => { return None },
        };
        let notes = match crate::decode::req_notes(v.get_member("notes")) {
            Some(o) => o,
            None => { return None },
        };
        let receipt = match crate::error::opt_str_member(v, "receipt") {
            Some(o) => o,
            None => { return None },
        };
        let acquirer_data = match v.get_member("acquirer_data") {
            Some(w) => w.clone(),
            None => { return None },
        };
        let status = match crate::decode::req_str(v.get_member("status")) {
            Some(s) => match RefundStatus::parse(s.as_str()) {
                Some(st) => st,
                None => { return None },
            },
            None => { return None },
        };
        let speed_requested = match crate::error::opt_str_member(v, "speed_requested") {
            Some(Some(s)) => match RefundSpeed::parse(s.as_str()) {
                Some(sp) => Some(sp),
                None => { return None },
            },
            Some(None) => None,
            None => { return None },
        };
        let speed_processed = match crate::error::opt_str_member(v, "speed_processed") {
            Some(Some(s)) => match RefundSpeed::parse(s.as_str()) {
                Some(sp) => Some(sp),
                None => { return None },
            },
            Some(None) => None,
            None => { return None },
        };
        Some(
            Refund {
                id,
                entity,
                amount,
                currency,
                payment_id,
                speed,
                created_at,
                batch_id,
                notes,
                receipt,
                acquirer_data,
                status,
                speed_requested,
                speed_processed,
            },
        )
    }

    /// Reads a whole refund response body: the error shape wins, any
    /// other body must decode as a refund.
    pub fn decode_response(body: &str) -> (r: crate::error::RazorpayResult<Refund>)
        ensures
            match crate::parse::sp_json(body@) {
                None => r matches Err(e) && e is SerializationError,
                Some(v) => match crate::api::sp_envelope(v) {
                    crate::api::SpEnvelope::Failure(m) => r matches Err(
                        crate::error::RazorpayError::ApiError(e),
                    ) && e.model() == m,
                    crate::api::SpEnvelope::Success(w) => match sp_refund(w) {
                        Some(m) => r matches Ok(rf) && rf.model() == m,
                        None => r matches Err(e) && e is SerializationError,
                    },
                    crate::api::SpEnvelope::Malformed => r matches Err(e)
                        && e is SerializationError,
                },
            },
    {
        match crate::api::decode_response(body) {
            Err(e) => Err(e),
            Ok(v) => match Refund::from_json(&v) {
                Some(rf) => Ok(rf),
                None => Err(
                    crate::error::RazorpayError::SerializationError(
                        String::from_str("response body does not have the refund shape"),
                    ),
                ),
            },
        }
    }
}

} // verus!
