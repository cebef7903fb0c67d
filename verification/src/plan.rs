//! Billing plans and the parameter records of their calls.

use vstd::prelude::*;

use crate::api::RequestParams;
use crate::common::Filter;
use crate::json::{JVal, JsonValue};

use crate::common::Currency;
use crate::common::Object;
use crate::common::Timestamp;
use crate::ids::PlanId;
use crate::item::Item;

verus! {

#[derive(Clone, Debug, PartialEq, Eq, Default)]
pub struct CreatePlanItem<'a> {
    pub name: &'a str,
    pub amount: u64,
    pub currency: Currency,
    pub description: Option<&'a str>,
}

#[derive(Clone, Debug, PartialEq, Eq)]
pub struct CreatePlan<'a> {
    pub interval: u8,
    pub period: PlanPeriod,
    pub notes: Option<Object>,
    pub item: CreatePlanItem<'a>,
}

#[derive(Clone, Debug, PartialEq, Eq, Default)]
pub enum PlanPeriod {
    Daily,
    Weekly,
    #[default]
    Monthly,
    Yearly,
}

#[derive(Clone, Debug, PartialEq, Eq)]
pub struct Plan {
    pub id: PlanId,
    pub interval: u8,
    pub period: PlanPeriod,
    pub item: Item,
    pub notes: Object,
    pub created_at: Timestamp,
}

/// The wire name of a billing period.
pub open spec fn plan_period_code(p: PlanPeriod) -> Seq<char> {
    match p {
        PlanPeriod::Daily => "daily"@,
        PlanPeriod::Weekly => "weekly"@,
        PlanPeriod::Monthly => "monthly"@,
        PlanPeriod::Yearly => "yearly"@,
    }
}

impl PlanPeriod {
    /// The wire name of this period.
    pub fn as_str(&self) -> (r: &'static str)
        ensures
            r@ == plan_period_code(*self),
    {
        match self {
            PlanPeriod::Daily => "daily",
            PlanPeriod::Weekly => "weekly",
            PlanPeriod::Monthly => "monthly",
            PlanPeriod::Yearly => "yearly",
        }
    }
}

/// The members a plan item serializes to, in declaration order.
pub open spec fn create_plan_item_members(c: CreatePlanItem) -> Seq<(Seq<char>, JVal)> {
    seq![
        ("name"@, JVal::Str(c.name@)),
        ("amount"@, JVal::Num(crate::num::dec_str(c.amount as int))),
        ("currency"@, JVal::Str(crate::common::currency_code(c.currency))),
    ] + (match c.description {
        Some(s) => seq![("description"@, JVal::Str(s@))],
        None => Seq::empty(),
    })
}

impl<'a> CreatePlanItem<'a> {
    /// Serializes these parameters as their JSON body.
    pub fn to_json(&self) -> (r: JsonValue)
        ensures
            r@ == JVal::Obj(create_plan_item_members(*self)),
    {
        let mut members: Vec<(String, JsonValue)> = Vec::new();
        members.push((String::from_str("name"), JsonValue::Str(self.name.to_owned())));
        members.push(
            (String::from_str("amount"), JsonValue::Num(crate::num::u64_to_string(self.amount))),
        );
        members.push(
            (
                String::from_str("currency"),
                JsonValue::Str(String::from_str(self.currency.as_str())),
            ),
        );
        if let Some(s) = self.description {
            members.push((String::from_str("description"), JsonValue::Str(s.to_owned())));
        }
        let ghost cm = create_plan_item_members(*self);
        proof {
            let mv = crate::json::member_views_of(members@);
            assert(mv.len() == cm.len());
            assert forall|k: int| 0 <= k < mv.len() implies mv[k] == cm[k] by {
                assert(mv[k] == (members@[k].0@, members@[k].1.jval()));
            }
            assert(mv =~= cm);
        }
        JsonValue::Obj(members)
    }
}
/// The members plan creation serializes to, the billed item nested last.
pub open spec fn create_plan_members(c: CreatePlan) -> Seq<(Seq<char>, JVal)> {
    seq![
        ("interval"@, JVal::Num(crate::num::dec_str(c.interval as int))),
        ("period"@, JVal::Str(plan_period_code(c.period))),
    ] + (match c.notes {
        Some(o) => seq![("notes"@, JVal::Obj(crate::common::object_members(o@)))],
        None => Seq::empty(),
    }) + seq![("item"@, JVal::Obj(create_plan_item_members(c.item)))]
}

impl<'a> CreatePlan<'a> {
    /// Serializes these parameters as their JSON body.
    pub fn to_json(&self) -> (r: JsonValue)
        ensures
            r@ == JVal::Obj(create_plan_members(*self)),
    {
        let mut members: Vec<(String, JsonValue)> = Vec::new();
        members.push(
            (
                String::from_str("interval"),
                JsonValue::Num(crate::num::u64_to_string(self.interval as u64)),
            ),
        );
        members.push(
            (String::from_str("period"), JsonValue::Str(String::from_str(self.period.as_str()))),
        );
        if let Some(o) = &self.notes {
            members.push((String::from_str("notes"), crate::common::object_to_json(o)));
        }
        members.push((String::from_str("item"), self.item.to_json()));
        let ghost cm = create_plan_members(*self);
        proof {
            let mv = crate::json::member_views_of(members@);
            assert(mv.len() == cm.len());
            assert forall|k: int| 0 <= k < mv.len() implies mv[k] == cm[k] by {
                assert(mv[k] == (members@[k].0@, members@[k].1.jval()));
            }
            assert(mv =~= cm);
        }
        JsonValue::Obj(members)
    }
}

impl Plan {
    /// The request plan creation sends: a POST to `/plans`.
    pub fn create_request(params: &CreatePlan<'_>) -> (r: RequestParams)
        ensures
            r.url@ == "/plans"@,
            r.version is None,
            r.data matches Some(d) && d@ == JVal::Obj(create_plan_members(*params)),
    {
        RequestParams {
            url: String::from_str("/plans"),
            version: None,
            data: Some(params.to_json()),
        }
    }

    /// The request a plan listing sends: a GET of `/plans` with the
    /// filter as query payload.
    pub fn list_request(filter: Option<&Filter>) -> (r: RequestParams)
        ensures
            r.url@ == "/plans"@,
            r.version is None,
            match filter {
                Some(f) => r.data matches Some(d) && d@ == JVal::Obj(
                    crate::common::filter_members(*f),
                ),
                None => r.data is None,
            },
    {
        RequestParams {
            url: String::from_str("/plans"),
            version: None,
            data: match filter {
                Some(f) => Some(f.to_json()),
                None => None,
            },
        }
    }

    /// The request a plan fetch sends: a GET of `/plans/{id}`.
    pub fn fetch_request(plan_id: &PlanId) -> (r: RequestParams)
        ensures
            r.url@ == "/plans/"@ + plan_id@,
            r.version is None,
            r.data is None,
    {
        let mut url = String::from_str("/plans/");
        url.append(plan_id.as_str());
        RequestParams { url, version: None, data: None }
    }
}

} // verus!
