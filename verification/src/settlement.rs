//! Settlement entities, regular and on-demand, and their reports.

use vstd::prelude::*;

use crate::api::RequestParams;
use crate::json::{JVal, JsonValue};
use crate::common::Filter;

use crate::payment::PaymentMethod;
use crate::card::CardNetwork;
use crate::card::CardType;
use crate::common::Collection;
use crate::common::Currency;
use crate::common::Object;
use crate::common::Timestamp;
use crate::ids::AdjustmentId;
use crate::ids::DisputeId;
use crate::ids::InstantSettlementId;
use crate::ids::InstantSettlementPayoutId;
use crate::ids::OrderId;
use crate::ids::PaymentId;
use crate::ids::RefundId;
use crate::ids::SettlementId;
use crate::ids::TransferId;
use crate::payment::Payment;
use crate::refund::Refund;

verus! {

#[derive(Clone, Debug, PartialEq, Eq)]
pub enum SettlementStatus {
    Created,
    Processed,
    Failed,
}

#[derive(Clone, Debug, PartialEq, Eq)]
pub struct Settlement {
    pub id: SettlementId,
    pub amount: u64,
    pub status: SettlementStatus,
    pub fees: u64,
    pub tax: u64,
    pub utr: String,
    pub created_at: Timestamp,
}

#[derive(Clone, Debug, PartialEq, Eq)]
pub enum InstantSettlementStatus {
    Created,
    Initiated,
    PartiallyProcessed,
    Processed,
    Reversed,
}

#[derive(Clone, Debug, PartialEq, Eq)]
pub enum InstantSettlementPayoutStatus {
    Created,
    Initiated,
    Processed,
    Reversed,
}

#[derive(Clone, Debug, PartialEq, Eq)]
pub struct InstantSettlementPayout {
    pub id: InstantSettlementPayoutId,
    pub initiated_at: Timestamp,
    pub processed_at: Option<Timestamp>,
    pub reversed_at: Option<Timestamp>,
    pub amount: u64,
    pub amount_settled: u64,
    pub fees: u64,
    pub tax: u64,
    pub utr: String,
    pub status: InstantSettlementPayoutStatus,
    pub created_at: Timestamp,
}

#[derive(Clone, Debug, PartialEq, Eq)]
pub struct InstantSettlement {
    pub id: InstantSettlementId,
    pub amount_requested: u64,
    pub amount_settled: u64,
    pub amount_pending: u64,
    pub amount_reversed: u64,
    pub fees: u64,
    pub tax: u64,
    pub currency: Currency,
    pub settle_full_balance: bool,
    pub status: InstantSettlementStatus,
    pub description: Option<String>,
    pub notes: Object,
    pub created_at: Timestamp,
    pub ondemand_payouts: Option<Collection<InstantSettlementPayout>>,
}

#[derive(Clone, Debug, PartialEq, Eq)]
pub enum SettlementType {
    Payment,
    Refund,
    Transfer,
    Adjustment,
}

#[derive(Clone, Debug, PartialEq, Eq)]
pub enum SettlementReconEntityId {
    Payment(PaymentId),
    Refund(RefundId),
    Transfer(TransferId),
    Adjustment(AdjustmentId),
}

#[derive(Clone, Debug, PartialEq, Eq)]
pub struct SettlementRecon {
    pub entity_id: SettlementReconEntityId,
    pub type_: SettlementType,
    pub debit: u64,
    pub credit: u64,
    pub amount: u64,
    pub currency: Currency,
    pub fee: u64,
    pub tax: u64,
    pub on_hold: bool,
    pub settled: bool,
    pub created_at: Timestamp,
    pub settled_at: Option<Timestamp>,
    pub settlement_id: Option<SettlementId>,
    pub description: Option<String>,
    // The service's documentation is inconsistent about this field's
    // shape in reconciliation rows; a string map covers the documented
    // schema.
    pub notes: Object,
    pub payment_id: Option<PaymentId>,
    pub settlement_utr: Option<String>,
    pub order_id: Option<OrderId>,
    pub order_receipt: Option<String>,
    pub method: Option<PaymentMethod>,
    pub card_network: Option<CardNetwork>,
    pub card_issuer: Option<String>,
    pub card_type: Option<CardType>,
    pub dispute_id: Option<DisputeId>,
}

#[derive(Clone, Debug, PartialEq, Eq, Default)]
pub struct FetchRecon {
    pub year: u16,
    pub month: u8,
    pub day: Option<u8>,
    pub count: Option<u16>,
    pub skip: Option<u64>,
}

#[derive(Clone, Debug, PartialEq, Eq, Default)]
pub struct CreateInstantSettlement<'a> {
    pub amount: u64,
    pub settle_full_balance: Option<bool>,
    pub description: Option<&'a str>,
    pub notes: Option<Object>,
}


/// The members a reconciliation fetch serializes to: year and month,
/// then the optional day and page.
pub open spec fn fetch_recon_members(c: FetchRecon) -> Seq<(Seq<char>, JVal)> {
    seq![
        ("year"@, JVal::Num(crate::num::dec_str(c.year as int))),
        ("month"@, JVal::Num(crate::num::dec_str(c.month as int))),
    ] + (match c.day {
        Some(d) => seq![("day"@, JVal::Num(crate::num::dec_str(d as int)))],
        None => Seq::empty(),
    }) + (match c.count {
        Some(n) => seq![("count"@, JVal::Num(crate::num::dec_str(n as int)))],
        None => Seq::empty(),
    }) + (match c.skip {
        Some(n) => seq![("skip"@, JVal::Num(crate::num::dec_str(n as int)))],
        None => Seq::empty(),
    })
}

impl FetchRecon {
    /// Serializes the reconciliation window as a flat record.
    #[verifier::rlimit(60)]
    pub fn to_json(&self) -> (r: JsonValue)
        ensures
            r@ == JVal::Obj(fetch_recon_members(*self)),
    {
        let mut members: Vec<(String, JsonValue)> = Vec::new();
        members.push(
            (
                String::from_str("year"),
                JsonValue::Num(crate::num::u64_to_string(self.year as u64)),
            ),
        );
        members.push(
            (
                String::from_str("month"),
                JsonValue::Num(crate::num::u64_to_string(self.month as u64)),
            ),
        );
        if let Some(d) = self.day {
            members.push(
                (String::from_str("day"), JsonValue::Num(crate::num::u64_to_string(d as u64))),
            );
        }
        if let Some(n) = self.count {
            members.push(
                (String::from_str("count"), JsonValue::Num(crate::num::u64_to_string(n as u64))),
            );
        }
        if let Some(n) = self.skip {
            members.push(
                (String::from_str("skip"), JsonValue::Num(crate::num::u64_to_string(n))),
            );
        }
        let ghost cm = fetch_recon_members(*self);
        proof {
            let mv = crate::json::member_views_of(members@);
            assert(mv.len() == cm.len());
            assert forall|k: int| 0 <= k < mv.len() implies mv[k] == cm[k] by {
                assert(mv[k] == (members@[k].0@, members@[k].1.jval()));
            }
            assert(mv =~= cm);
        }
        JsonValue::Obj(members)
    }
}

/// The members an instant settlement serializes to; absent options
/// are left out.
pub open spec fn create_instant_settlement_members(c: CreateInstantSettlement) -> Seq<
    (Seq<char>, JVal),
> {
    seq![("amount"@, JVal::Num(crate::num::dec_str(c.amount as int)))] + (
    match c.settle_full_balance {
        Some(b) => seq![("settle_full_balance"@, JVal::Bool(b))],
        None => Seq::empty(),
    }) + (match c.description {
        Some(d) => seq![("description"@, JVal::Str(d@))],
        None => Seq::empty(),
    }) + (match c.notes {
        Some(o) => seq![("notes"@, JVal::Obj(crate::common::object_members(o@)))],
        None => Seq::empty(),
    })
}

impl<'a> CreateInstantSettlement<'a> {
    /// Serializes the instant-settlement parameters as their JSON
    /// body.
    #[verifier::rlimit(60)]
    pub fn to_json(&self) -> (r: JsonValue)
        ensures
            r@ == JVal::Obj(create_instant_settlement_members(*self)),
    {
        let mut members: Vec<(String, JsonValue)> = Vec::new();
        members.push(
            (String::from_str("amount"), JsonValue::Num(crate::num::u64_to_string(self.amount))),
        );
        if let Some(b) = self.settle_full_balance {
            members.push((String::from_str("settle_full_balance"), JsonValue::Bool(b)));
        }
        if let Some(d) = self.description {
            members.push((String::from_str("description"), JsonValue::Str(d.to_owned())));
        }
        if let Some(o) = &self.notes {
            members.push((String::from_str("notes"), crate::common::object_to_json(o)));
        }
        let ghost cm = create_instant_settlement_members(*self);
        proof {
            let mv = crate::json::member_views_of(members@);
            assert(mv.len() == cm.len());
            assert forall|k: int| 0 <= k < mv.len() implies mv[k] == cm[k] by {
                assert(mv[k] == (members@[k].0@, members@[k].1.jval()));
            }
            assert(mv =~= cm);
        }
        JsonValue::Obj(members)
    }
}

/// The query record that asks for payouts to be expanded in place.
pub open spec fn expand_payouts_members() -> Seq<(Seq<char>, JVal)> {
    seq![("expand[]"@, JVal::Str("ondemand_payouts"@))]
}

fn expand_payouts_json() -> (r: JsonValue)
    ensures
        r@ == JVal::Obj(expand_payouts_members()),
{
    let mut members: Vec<(String, JsonValue)> = Vec::new();
    members.push(
        (String::from_str("expand[]"), JsonValue::Str(String::from_str("ondemand_payouts"))),
    );
    let r = JsonValue::Obj(members);
    proof {
        assert(members@[0].1@ == JVal::Str("ondemand_payouts"@));
        assert(r@->Obj_0 =~= expand_payouts_members());
    }
    r
}

impl Settlement {
    /// The request a settlement listing sends: a GET of
    /// `/settlements` with the filter as query payload.
    pub fn list_request(filter: Option<&Filter>) -> (r: RequestParams)
        ensures
            r.url@ == "/settlements"@,
            r.version is None,
            match filter {
                Some(f) => r.data matches Some(d) && d@ == JVal::Obj(
                    crate::common::filter_members(*f),
                ),
                None => r.data is None,
            },
    {
        RequestParams {
            url: String::from_str("/settlements"),
            version: None,
            data: match filter {
                Some(f) => Some(f.to_json()),
                None => None,
            },
        }
    }

    /// The request a settlement fetch sends: a GET of
    /// `/settlements/{id}`.
    pub fn fetch_request(settlement_id: &SettlementId) -> (r: RequestParams)
        ensures
            r.url@ == "/settlements/"@ + settlement_id@,
            r.version is None,
            r.data is None,
    {
        let mut url = String::from_str("/settlements/");
        url.append(settlement_id.as_str());
        RequestParams { url, version: None, data: None }
    }
}

impl SettlementRecon {
    /// The request a reconciliation fetch sends: a GET of
    /// `/settlements/recon/combined` with the window as query payload.
    pub fn fetch_request(params: &FetchRecon) -> (r: RequestParams)
        ensures
            r.url@ == "/settlements/recon/combined"@,
            r.version is None,
            r.data matches Some(d) && d@ == JVal::Obj(fetch_recon_members(*params)),
    {
        RequestParams {
            url: String::from_str("/settlements/recon/combined"),
            version: None,
            data: Some(params.to_json()),
        }
    }
}

impl InstantSettlement {
    /// The request an instant settlement sends: a POST to
    /// `/settlements/ondemand` carrying its parameters.
    pub fn create_request(params: &CreateInstantSettlement<'_>) -> (r: RequestParams)
        ensures
            r.url@ == "/settlements/ondemand"@,
            r.version is None,
            r.data matches Some(d) && d@ == JVal::Obj(
                create_instant_settlement_members(*params),
            ),
    {
        RequestParams {
            url: String::from_str("/settlements/ondemand"),
            version: None,
            data: Some(params.to_json()),
        }
    }

    /// The request an instant-settlement listing sends: a GET of
    /// `/settlements/ondemand`, asking for payouts in place where
    /// requested.
    pub fn list_request(expand_payout: bool) -> (r: RequestParams)
        ensures
            r.url@ == "/settlements/ondemand"@,
            r.version is None,
            if expand_payout {
                r.data matches Some(d) && d@ == JVal::Obj(expand_payouts_members())
            } else {
                r.data is None
            },
    {
        RequestParams {
            url: String::from_str("/settlements/ondemand"),
            version: None,
            data: if expand_payout {
                Some(expand_payouts_json())
            } else {
                None
            },
        }
    }

    /// The request an instant-settlement fetch sends: a GET of
    /// `/settlements/ondemand/{id}`, asking for payouts in place
    /// where requested.
    pub fn fetch_request(instant_settlement_id: &InstantSettlementId, expand_payout: bool) -> (r:
        RequestParams)
        ensures
            r.url@ == "/settlements/ondemand/"@ + instant_settlement_id@,
            r.version is None,
            if expand_payout {
                r.data matches Some(d) && d@ == JVal::Obj(expand_payouts_members())
            } else {
                r.data is None
            },
    {
        let mut url = String::from_str("/settlements/ondemand/");
        url.append(instant_settlement_id.as_str());
        RequestParams {
            url,
            version: None,
            data: if expand_payout {
                Some(expand_payouts_json())
            } else {
                None
            },
        }
    }
}

} // verus!
