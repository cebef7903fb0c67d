//! Dispute entities, their lifecycle and evidence records.

use vstd::prelude::*;

use crate::api::RequestParams;
use crate::common::Filter;
use crate::json::{JVal, JsonValue};

use crate::common::Currency;
use crate::common::Timestamp;
use crate::ids::DisputeId;
use crate::ids::PaymentId;

verus! {

#[derive(Clone, Debug, PartialEq, Eq)]
pub enum DisputeStatus {
    Open,
    UnderReview,
    Won,
    Lost,
    Closed,
}

#[derive(Clone, Debug, PartialEq, Eq)]
pub enum DisputePhase {
    Fraud,
    Retrieval,
    Chargeback,
    PreArbitration,
    Arbitration,
}

#[derive(Clone, Debug, PartialEq, Eq)]
pub struct OtherDisputeEvidence {
    pub type_: String,
    pub document_ids: Vec<String>,
}

#[derive(Clone, Debug, PartialEq, Eq)]
pub struct DisputeEvidence {
    pub amount: u64,
    pub summary: String,
    pub shipping_proof: Option<Vec<String>>,
    pub billing_proof: Option<Vec<String>>,
    pub cancellation_proof: Option<Vec<String>>,
    pub customer_communication: Option<Vec<String>>,
    pub proof_of_service: Option<Vec<String>>,
    pub explanation_letter: Option<Vec<String>>,
    pub refund_confirmation: Option<Vec<String>>,
    pub access_activity_log: Option<Vec<String>>,
    pub refund_cancellation_policy: Option<Vec<String>>,
    pub term_and_conditions: Option<Vec<String>>,
    pub others: Option<Vec<OtherDisputeEvidence>>,
    pub submitted_at: Option<Timestamp>,
}

#[derive(Clone, Debug, PartialEq, Eq)]
pub struct Dispute {
    pub id: DisputeId,
    pub payment_id: PaymentId,
    pub amount: u64,
    pub currency: Currency,
    pub amount_deducted: u64,
    pub reason_code: String,
    pub reason_description: String,
    pub respond_by: Timestamp,
    pub status: DisputeStatus,
    pub phase: DisputePhase,
    pub created_at: Timestamp,
    pub evidence: DisputeEvidence,
}

#[derive(Clone, Debug, PartialEq, Eq, Default)]
pub enum ContestDisputeAction {
    Draft,
    #[default]
    Submit,
}

#[derive(Clone, Debug, PartialEq, Eq)]
pub struct ContestDisputeOtherEvidence<'a> {
    pub type_: &'a str,
    pub document_ids: &'a [&'a str],
}

#[derive(Clone, Debug, PartialEq, Eq, Default)]
pub struct ContestDispute<'a> {
    pub amount: u64,
    pub summary: &'a str,
    pub shipping_proof: Option<&'a [&'a str]>,
    pub billing_proof: Option<&'a [&'a str]>,
    pub cancellation_proof: Option<&'a [&'a str]>,
    pub customer_communication: Option<&'a [&'a str]>,
    pub proof_of_service: Option<&'a [&'a str]>,
    pub explanation_letter: Option<&'a [&'a str]>,
    pub refund_confirmation: Option<&'a [&'a str]>,
    pub access_activity_log: Option<&'a [&'a str]>,
    pub refund_cancellation_policy: Option<&'a [&'a str]>,
    pub term_and_conditions: Option<&'a [&'a str]>,
    pub others: Option<&'a [ContestDisputeOtherEvidence<'a>]>,
    pub action: ContestDisputeAction,
}


impl Dispute {
    /// The request a dispute listing sends: a GET of `/disputes` with
    /// the filter as query payload.
    pub fn list_request(filter: Option<&Filter>) -> (r: RequestParams)
        ensures
            r.url@ == "/disputes"@,
            r.version is None,
            match filter {
                Some(f) => r.data matches Some(d) && d@ == JVal::Obj(
                    crate::common::filter_members(*f),
                ),
                None => r.data is None,
            },
    {
        RequestParams {
            url: String::from_str("/disputes"),
            version: None,
            data: match filter {
                Some(f) => Some(f.to_json()),
                None => None,
            },
        }
    }

    /// The request a dispute fetch sends: a GET of `/disputes/{id}`.
    pub fn fetch_request(dispute_id: &DisputeId) -> (r: RequestParams)
        ensures
            r.url@ == "/disputes/"@ + dispute_id@,
            r.version is None,
            r.data is None,
    {
        let mut url = String::from_str("/disputes/");
        url.append(dispute_id.as_str());
        RequestParams { url, version: None, data: None }
    }

    /// The request that accepts a dispute: a POST to
    /// `/disputes/{id}/accept` without a body.
    pub fn accept_request(dispute_id: &DisputeId) -> (r: RequestParams)
        ensures
            r.url@ == "/disputes/"@ + dispute_id@ + "/accept"@,
            r.version is None,
            r.data is None,
    {
        let mut url = String::from_str("/disputes/");
        url.append(dispute_id.as_str());
        url.append("/accept");
        RequestParams { url, version: None, data: None }
    }
}


/// The wire name of a contest action.
pub open spec fn contest_action_code(a: ContestDisputeAction) -> Seq<char> {
    match a {
        ContestDisputeAction::Draft => "draft"@,
        ContestDisputeAction::Submit => "submit"@,
    }
}

impl ContestDisputeAction {
    /// The wire name of this action.
    pub fn as_str(&self) -> (r: &'static str)
        ensures
            r@ == contest_action_code(*self),
    {
        match self {
            ContestDisputeAction::Draft => "draft",
            ContestDisputeAction::Submit => "submit",
        }
    }
}

/// The members one free-form evidence record serializes to: its kind
/// and the documents behind it.
pub open spec fn other_evidence_members(e: ContestDisputeOtherEvidence) -> Seq<(Seq<char>, JVal)> {
    seq![
        ("type"@, JVal::Str(e.type_@)),
        ("document_ids"@, JVal::Arr(crate::common::str_list_jarr(e.document_ids@))),
    ]
}

impl<'a> ContestDisputeOtherEvidence<'a> {
    /// Serializes this evidence record as its JSON body.
    pub fn to_json(&self) -> (r: JsonValue)
        ensures
            r@ == JVal::Obj(other_evidence_members(*self)),
    {
        let mut members: Vec<(String, JsonValue)> = Vec::new();
        members.push((String::from_str("type"), JsonValue::Str(self.type_.to_owned())));
        members.push(
            (
                String::from_str("document_ids"),
                crate::common::str_list_to_json(self.document_ids),
            ),
        );
        let ghost cm = other_evidence_members(*self);
        proof {
            let mv = crate::json::member_views_of(members@);
            assert(mv.len() == cm.len());
            assert forall|k: int| 0 <= k < mv.len() implies mv[k] == cm[k] by {
                assert(mv[k] == (members@[k].0@, members@[k].1.jval()));
            }
            assert(mv =~= cm);
        }
        JsonValue::Obj(members)
    }
}

/// The wire form of a list of free-form evidence records.
pub open spec fn other_evidence_jarr(es: Seq<ContestDisputeOtherEvidence>) -> Seq<JVal> {
    Seq::new(
        es.len(),
        |i: int|
            if 0 <= i < es.len() {
                JVal::Obj(other_evidence_members(es[i]))
            } else {
                JVal::Null
            },
    )
}

fn other_evidence_to_json(es: &[ContestDisputeOtherEvidence<'_>]) -> (r: JsonValue)
    ensures
        r@ == JVal::Arr(other_evidence_jarr(es@)),
{
    let mut items: Vec<JsonValue> = Vec::new();
    let n = es.len();
    let mut i: usize = 0;
    while i < n
        invariant
            n == es@.len(),
            i <= n,
            items@.len() == i,
            forall|k: int| 0 <= k < i ==> #[trigger] items@[k]@ == JVal::Obj(
                other_evidence_members(es@[k]),
            ),
        decreases n - i,
    {
        let e = vstd::slice::slice_index_get(es, i);
        items.push(e.to_json());
        i = i + 1;
        assert(items@[i - 1]@ == JVal::Obj(other_evidence_members(es@[i - 1])));
    }
    proof {
        assert forall|k: int| 0 <= k < n implies crate::json::views_of(items@)[k]
            == other_evidence_jarr(es@)[k] by {
            assert(items@[k]@ == JVal::Obj(other_evidence_members(es@[k])));
        }
        assert(crate::json::views_of(items@) =~= other_evidence_jarr(es@));
    }
    JsonValue::Arr(items)
}

/// One optional evidence member: a list of document references under
/// its key, or nothing.
pub open spec fn evidence_member(key: Seq<char>, o: Option<&[&str]>) -> Seq<(Seq<char>, JVal)> {
    match o {
        Some(items) => seq![(key, JVal::Arr(crate::common::str_list_jarr(items@)))],
        None => Seq::empty(),
    }
}

/// The members a contest serializes to, in declaration order; absent
/// evidence lists are left out.
pub open spec fn contest_dispute_members(c: ContestDispute) -> Seq<(Seq<char>, JVal)> {
    seq![
        ("amount"@, JVal::Num(crate::num::dec_str(c.amount as int))),
        ("summary"@, JVal::Str(c.summary@)),
    ] + evidence_member("shipping_proof"@, c.shipping_proof) + evidence_member(
        "billing_proof"@,
        c.billing_proof,
    ) + evidence_member("cancellation_proof"@, c.cancellation_proof) + evidence_member(
        "customer_communication"@,
        c.customer_communication,
    ) + evidence_member("proof_of_service"@, c.proof_of_service) + evidence_member(
        "explanation_letter"@,
        c.explanation_letter,
    ) + evidence_member("refund_confirmation"@, c.refund_confirmation) + evidence_member(
        "access_activity_log"@,
        c.access_activity_log,
    ) + evidence_member("refund_cancellation_policy"@, c.refund_cancellation_policy)
        + evidence_member("term_and_conditions"@, c.term_and_conditions) + (match c.others {
        Some(os) => seq![("others"@, JVal::Arr(other_evidence_jarr(os@)))],
        None => Seq::empty(),
    }) + seq![("action"@, JVal::Str(contest_action_code(c.action)))]
}

fn push_evidence(members: &mut Vec<(String, JsonValue)>, key: &str, o: Option<&[&str]>)
    ensures
        crate::json::member_views_of(final(members)@) == crate::json::member_views_of(
            old(members)@,
        ) + evidence_member(key@, o),
{
    match o {
        Some(items) => {
            let ghost pre = members@;
            members.push((key.to_owned(), crate::common::str_list_to_json(items)));
            proof {
                assert(crate::json::member_views_of(members@) =~= crate::json::member_views_of(
                    pre,
                ) + evidence_member(key@, o));
            }
        },
        None => {
            proof {
                assert(crate::json::member_views_of(members@) =~= crate::json::member_views_of(
                    members@,
                ) + evidence_member(key@, o));
            }
        },
    }
}

impl<'a> ContestDispute<'a> {
    /// Serializes the contest parameters as their JSON body.
    pub fn to_json(&self) -> (r: JsonValue)
        ensures
            r@ == JVal::Obj(contest_dispute_members(*self)),
    {
        let mut members: Vec<(String, JsonValue)> = Vec::new();
        members.push(
            (String::from_str("amount"), JsonValue::Num(crate::num::u64_to_string(self.amount))),
        );
        members.push((String::from_str("summary"), JsonValue::Str(self.summary.to_owned())));
        proof {
            assert(crate::json::member_views_of(members@) =~= seq![
                ("amount"@, JVal::Num(crate::num::dec_str(self.amount as int))),
                ("summary"@, JVal::Str(self.summary@)),
            ]);
        }
        push_evidence(&mut members, "shipping_proof", self.shipping_proof);
        push_evidence(&mut members, "billing_proof", self.billing_proof);
        push_evidence(&mut members, "cancellation_proof", self.cancellation_proof);
        push_evidence(&mut members, "customer_communication", self.customer_communication);
        push_evidence(&mut members, "proof_of_service", self.proof_of_service);
        push_evidence(&mut members, "explanation_letter", self.explanation_letter);
        push_evidence(&mut members, "refund_confirmation", self.refund_confirmation);
        push_evidence(&mut members, "access_activity_log", self.access_activity_log);
        push_evidence(&mut members, "refund_cancellation_policy", self.refund_cancellation_policy);
        push_evidence(&mut members, "term_and_conditions", self.term_and_conditions);
        let ghost before_others = crate::json::member_views_of(members@);
        match self.others {
            Some(os) => {
                let ghost pre = members@;
                members.push((String::from_str("others"), other_evidence_to_json(os)));
                proof {
                    assert(crate::json::member_views_of(members@)
                        =~= crate::json::member_views_of(pre) + seq![
                        ("others"@, JVal::Arr(other_evidence_jarr(os@))),
                    ]);
                }
            },
            None => {
                proof {
                    assert(before_others =~= before_others + Seq::<(Seq<char>, JVal)>::empty());
                }
            },
        }
        let ghost pre_action = crate::json::member_views_of(members@);
        members.push(
            (String::from_str("action"), JsonValue::Str(String::from_str(self.action.as_str()))),
        );
        proof {
            assert(crate::json::member_views_of(members@) =~= pre_action + seq![
                ("action"@, JVal::Str(contest_action_code(self.action))),
            ]);
        }
        JsonValue::Obj(members)
    }
}

impl Dispute {
    /// The request a contest sends: a PATCH of
    /// `/disputes/{id}/contest` carrying the evidence.
    pub fn contest_request(dispute_id: &DisputeId, params: &ContestDispute<'_>) -> (r:
        RequestParams)
        ensures
            r.url@ == "/disputes/"@ + dispute_id@ + "/contest"@,
            r.version is None,
            r.data matches Some(d) && d@ == JVal::Obj(contest_dispute_members(*params)),
    {
        let mut url = String::from_str("/disputes/");
        url.append(dispute_id.as_str());
        url.append("/contest");
        RequestParams { url, version: None, data: Some(params.to_json()) }
    }
}

} // verus!
