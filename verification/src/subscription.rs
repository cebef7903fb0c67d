//! Subscription entities and the parameter records of their calls.

use vstd::prelude::*;

use crate::api::RequestParams;
use crate::json::{JVal, JsonValue};

use crate::addon::Addon;
use crate::common::Currency;
use crate::common::Filter;
use crate::common::Object;
use crate::common::Timestamp;
use crate::entity::SubscriptionEntity;
use crate::ids::CustomerId;
use crate::ids::OfferId;
use crate::ids::PlanId;
use crate::ids::SubscriptionId;

verus! {

#[derive(Clone, Debug, PartialEq, Eq, Default)]
pub struct CreateSubscriptionAddonItem<'a> {
    pub name: &'a str,
    pub amount: u64,
    pub currency: Currency,
}

#[derive(Clone, Debug, PartialEq, Eq, Default)]
pub struct CreateSubscriptionAddon<'a> {
    pub item: CreateSubscriptionAddonItem<'a>,
}

#[derive(Clone, Debug, PartialEq, Eq, Default)]
pub struct CreateSubscriptionNotifyInfo<'a> {
    pub notify_email: &'a str,
    pub notify_phone: &'a str,
}

#[derive(Clone, Debug, PartialEq, Eq)]
pub struct CreateSubscription<'a> {
    pub plan_id: &'a PlanId,
    pub total_count: u64,
    pub quantity: Option<u64>,
    pub start_at: Option<Timestamp>,
    pub expire_by: Option<Timestamp>,
    pub customer_notify: Option<bool>,
    pub addons: &'a [CreateSubscriptionAddon<'a>],
    pub offer_id: Option<&'a OfferId>,
    pub notes: Option<Object>,
    pub notify_info: Option<CreateSubscriptionNotifyInfo<'a>>,
}

#[derive(Clone, Debug, PartialEq, Eq, Default)]
pub struct ListSubscriptions<'a> {
    pub plan_id: Option<&'a str>,
    pub filter: Option<Filter>,
}

#[derive(Clone, Debug, PartialEq, Eq, Default)]
pub struct UpdateSubscription<'a> {
    pub plan_id: Option<&'a str>,
    pub offer_id: Option<&'a str>,
    pub quantity: Option<u64>,
    pub remaining_count: Option<u64>,
    pub start_at: Option<Timestamp>,
    pub schedule_change_at: SubscriptionChangeSchedule,
    pub customer_notify: Option<bool>,
}

#[derive(Clone, Debug, PartialEq, Eq)]
pub enum SubscriptionStatus {
    Created,
    Authenticated,
    Active,
    Pending,
    Halted,
    Cancelled,
    Completed,
    Expired,
}

#[derive(Clone, Debug, PartialEq, Eq, Default)]
pub enum SubscriptionChangeSchedule {
    #[default]
    Now,
    CycleEnd,
}

#[derive(Clone, Debug, PartialEq, Eq)]
pub struct Subscription {
    pub id: SubscriptionId,
    pub entity: SubscriptionEntity,
    pub plan_id: PlanId,
    pub customer_id: Option<CustomerId>,
    pub total_count: u8,
    pub customer_notify: bool,
    pub start_at: Timestamp,
    pub quantity: u64,
    pub notes: Object,
    pub addons: Vec<Addon>,
    pub status: SubscriptionStatus,
    pub paid_count: u64,
    pub current_start: Timestamp,
    pub current_end: Timestamp,
    pub ended_at: Option<Timestamp>,
    pub charge_at: Timestamp,
    pub auth_attempts: u64,
    pub expire_by: Timestamp,
    pub offer_id: Option<OfferId>,
    pub short_url: String,
    pub has_scheduled_changes: bool,
    pub schedule_change_at: Option<SubscriptionChangeSchedule>,
    pub remaining_count: u64,
}


impl Subscription {
    /// The request a subscription fetch sends: a GET of
    /// `/subscription/{id}`.
    pub fn fetch_request(subscription_id: &SubscriptionId) -> (r: RequestParams)
        ensures
            r.url@ == "/subscription/"@ + subscription_id@,
            r.version is None,
            r.data is None,
    {
        let mut url = String::from_str("/subscription/");
        url.append(subscription_id.as_str());
        RequestParams { url, version: None, data: None }
    }

    /// The request a cancellation sends: a POST to
    /// `/subscription/{id}/cancel` saying whether to wait for the
    /// cycle end, as the number one or zero; an unstated choice means
    /// an immediate cancel.
    pub fn cancel_request(subscription_id: &SubscriptionId, cancel_at_cycle_end: Option<bool>)
        -> (r: RequestParams)
        ensures
            r.url@ == "/subscription/"@ + subscription_id@ + "/cancel"@,
            r.version is None,
            r.data matches Some(d) && d@ == JVal::Obj(
                seq![
                    (
                        "cancel_at_cycle_end"@,
                        JVal::Num(
                            if cancel_at_cycle_end == Some(true) {
                                "1"@
                            } else {
                                "0"@
                            },
                        ),
                    ),
                ],
            ),
    {
        let mut url = String::from_str("/subscription/");
        url.append(subscription_id.as_str());
        url.append("/cancel");
        let flag: &str = match cancel_at_cycle_end {
            Some(true) => "1",
            _ => "0",
        };
        let mut members: Vec<(String, JsonValue)> = Vec::new();
        members.push(
            (String::from_str("cancel_at_cycle_end"), JsonValue::Num(String::from_str(flag))),
        );
        let d = JsonValue::Obj(members);
        proof {
            assert(members@[0].1@ == JVal::Num(flag@));
            assert(d@->Obj_0 =~= seq![
                (
                    "cancel_at_cycle_end"@,
                    JVal::Num(
                        if cancel_at_cycle_end == Some(true) {
                            "1"@
                        } else {
                            "0"@
                        },
                    ),
                ),
            ]);
        }
        RequestParams { url, version: None, data: Some(d) }
    }

    /// The request a pending-update fetch sends: a GET of
    /// `/subscriptions/{id}/retrieve_scheduled_changes`.
    pub fn fetch_pending_update_request(subscription_id: &SubscriptionId) -> (r: RequestParams)
        ensures
            r.url@ == "/subscriptions/"@ + subscription_id@ + "/retrieve_scheduled_changes"@,
            r.version is None,
            r.data is None,
    {
        let mut url = String::from_str("/subscriptions/");
        url.append(subscription_id.as_str());
        url.append("/retrieve_scheduled_changes");
        RequestParams { url, version: None, data: None }
    }

    /// The request that drops a scheduled update: a POST to
    /// `/subscriptions/{id}/cancel_scheduled_changes`.
    pub fn cancel_scheduled_update_request(subscription_id: &SubscriptionId) -> (r: RequestParams)
        ensures
            r.url@ == "/subscriptions/"@ + subscription_id@ + "/cancel_scheduled_changes"@,
            r.version is None,
            r.data is None,
    {
        let mut url = String::from_str("/subscriptions/");
        url.append(subscription_id.as_str());
        url.append("/cancel_scheduled_changes");
        RequestParams { url, version: None, data: None }
    }

    /// The request a pause sends: a POST to
    /// `/subscriptions/{id}/pause` taking effect now.
    pub fn pause_request(subscription_id: &SubscriptionId) -> (r: RequestParams)
        ensures
            r.url@ == "/subscriptions/"@ + subscription_id@ + "/pause"@,
            r.version is None,
            r.data matches Some(d) && d@ == JVal::Obj(seq![("pause_at"@, JVal::Str("now"@))]),
    {
        let mut url = String::from_str("/subscriptions/");
        url.append(subscription_id.as_str());
        url.append("/pause");
        let mut members: Vec<(String, JsonValue)> = Vec::new();
        members.push((String::from_str("pause_at"), JsonValue::Str(String::from_str("now"))));
        let d = JsonValue::Obj(members);
        proof {
            assert(members@[0].1@ == JVal::Str("now"@));
            assert(d@->Obj_0 =~= seq![("pause_at"@, JVal::Str("now"@))]);
        }
        RequestParams { url, version: None, data: Some(d) }
    }

    /// The request a resume sends: a POST to
    /// `/subscriptions/{id}/resume` taking effect now.
    pub fn resume_request(subscription_id: &SubscriptionId) -> (r: RequestParams)
        ensures
            r.url@ == "/subscriptions/"@ + subscription_id@ + "/resume"@,
            r.version is None,
            r.data matches Some(d) && d@ == JVal::Obj(seq![("resume_at"@, JVal::Str("now"@))]),
    {
        let mut url = String::from_str("/subscriptions/");
        url.append(subscription_id.as_str());
        url.append("/resume");
        let mut members: Vec<(String, JsonValue)> = Vec::new();
        members.push((String::from_str("resume_at"), JsonValue::Str(String::from_str("now"))));
        let d = JsonValue::Obj(members);
        proof {
            assert(members@[0].1@ == JVal::Str("now"@));
            assert(d@->Obj_0 =~= seq![("resume_at"@, JVal::Str("now"@))]);
        }
        RequestParams { url, version: None, data: Some(d) }
    }
}

impl<'a> CreateSubscription<'a> {
    /// A one-cycle subscription on a plan, everything else left to
    /// its default.
    pub fn new(plan_id: &'a PlanId) -> (r: CreateSubscription<'a>)
        ensures
            r.plan_id == plan_id,
            r.total_count == 1u64,
            r.quantity is None,
            r.start_at is None,
            r.expire_by is None,
            r.customer_notify is None,
            r.addons@.len() == 0,
            r.offer_id is None,
            r.notes is None,
            r.notify_info is None,
    {
        CreateSubscription {
            plan_id,
            total_count: 1,
            quantity: None,
            start_at: None,
            expire_by: None,
            customer_notify: None,
            addons: &[],
            offer_id: None,
            notes: None,
            notify_info: None,
        }
    }
}

/// The wire name of an update schedule.
pub open spec fn change_schedule_code(s: SubscriptionChangeSchedule) -> Seq<char> {
    match s {
        SubscriptionChangeSchedule::Now => "now"@,
        SubscriptionChangeSchedule::CycleEnd => "cycle_end"@,
    }
}

impl SubscriptionChangeSchedule {
    /// The wire name of this schedule.
    pub fn as_str(&self) -> (r: &'static str)
        ensures
            r@ == change_schedule_code(*self),
    {
        match self {
            SubscriptionChangeSchedule::Now => "now",
            SubscriptionChangeSchedule::CycleEnd => "cycle_end",
        }
    }
}

/// The members an add-on item serializes to.
pub open spec fn subscription_addon_item_members(c: CreateSubscriptionAddonItem) -> Seq<(Seq<char>, JVal)> {
    seq![
        ("name"@, JVal::Str(c.name@)),
        ("amount"@, JVal::Num(crate::num::dec_str(c.amount as int))),
        ("currency"@, JVal::Str(crate::common::currency_code(c.currency))),
    ]
}

impl<'a> CreateSubscriptionAddonItem<'a> {
    /// Serializes these parameters as their JSON body.
    pub fn to_json(&self) -> (r: JsonValue)
        ensures
            r@ == JVal::Obj(subscription_addon_item_members(*self)),
    {
        let mut members: Vec<(String, JsonValue)> = Vec::new();
        members.push((String::from_str("name"), JsonValue::Str(self.name.to_owned())));
        members.push(
            (String::from_str("amount"), JsonValue::Num(crate::num::u64_to_string(self.amount))),
        );
        members.push(
            (
                String::from_str("currency"),
                JsonValue::Str(String::from_str(self.currency.as_str())),
            ),
        );
        let ghost cm = subscription_addon_item_members(*self);
        proof {
            let mv = crate::json::member_views_of(members@);
            assert(mv.len() == cm.len());
            assert forall|k: int| 0 <= k < mv.len() implies mv[k] == cm[k] by {
                assert(mv[k] == (members@[k].0@, members@[k].1.jval()));
            }
            assert(mv =~= cm);
        }
        JsonValue::Obj(members)
    }
}
/// The members one subscription add-on serializes to.
pub open spec fn subscription_addon_members(c: CreateSubscriptionAddon) -> Seq<(Seq<char>, JVal)> {
    seq![("item"@, JVal::Obj(subscription_addon_item_members(c.item)))]
}

impl<'a> CreateSubscriptionAddon<'a> {
    /// Serializes these parameters as their JSON body.
    pub fn to_json(&self) -> (r: JsonValue)
        ensures
            r@ == JVal::Obj(subscription_addon_members(*self)),
    {
        let mut members: Vec<(String, JsonValue)> = Vec::new();
        members.push((String::from_str("item"), self.item.to_json()));
        let ghost cm = subscription_addon_members(*self);
        proof {
            let mv = crate::json::member_views_of(members@);
            assert(mv.len() == cm.len());
            assert forall|k: int| 0 <= k < mv.len() implies mv[k] == cm[k] by {
                assert(mv[k] == (members@[k].0@, members@[k].1.jval()));
            }
            assert(mv =~= cm);
        }
        JsonValue::Obj(members)
    }
}
/// The members the notification contacts serialize to.
pub open spec fn notify_info_members(c: CreateSubscriptionNotifyInfo) -> Seq<(Seq<char>, JVal)> {
    seq![
        ("notify_email"@, JVal::Str(c.notify_email@)),
        ("notify_phone"@, JVal::Str(c.notify_phone@)),
    ]
}

impl<'a> CreateSubscriptionNotifyInfo<'a> {
    /// Serializes these parameters as their JSON body.
    pub fn to_json(&self) -> (r: JsonValue)
        ensures
            r@ == JVal::Obj(notify_info_members(*self)),
    {
        let mut members: Vec<(String, JsonValue)> = Vec::new();
        members.push(
            (String::from_str("notify_email"), JsonValue::Str(self.notify_email.to_owned())),
        );
        members.push(
            (String::from_str("notify_phone"), JsonValue::Str(self.notify_phone.to_owned())),
        );
        let ghost cm = notify_info_members(*self);
        proof {
            let mv = crate::json::member_views_of(members@);
            assert(mv.len() == cm.len());
            assert forall|k: int| 0 <= k < mv.len() implies mv[k] == cm[k] by {
                assert(mv[k] == (members@[k].0@, members@[k].1.jval()));
            }
            assert(mv =~= cm);
        }
        JsonValue::Obj(members)
    }
}
/// The wire form of a subscription's add-on list.
pub open spec fn addons_jarr(addons: Seq<CreateSubscriptionAddon>) -> Seq<JVal> {
    Seq::new(
        addons.len(),
        |i: int|
            if 0 <= i < addons.len() {
                JVal::Obj(subscription_addon_members(addons[i]))
            } else {
                JVal::Null
            },
    )
}

fn addons_to_json(addons: &[CreateSubscriptionAddon<'_>]) -> (r: JsonValue)
    ensures
        r@ == JVal::Arr(addons_jarr(addons@)),
{
    let mut items: Vec<JsonValue> = Vec::new();
    let n = addons.len();
    let mut i: usize = 0;
    while i < n
        invariant
            n == addons@.len(),
            i <= n,
            items@.len() == i,
            forall|k: int| 0 <= k < i ==> #[trigger] items@[k]@ == JVal::Obj(
                subscription_addon_members(addons@[k]),
            ),
        decreases n - i,
    {
        let a = vstd::slice::slice_index_get(addons, i);
        items.push(a.to_json());
        i = i + 1;
        assert(items@[i - 1]@ == JVal::Obj(subscription_addon_members(addons@[i - 1])));
    }
    proof {
        assert forall|k: int| 0 <= k < n implies crate::json::views_of(items@)[k] == addons_jarr(
            addons@,
        )[k] by {
            assert(items@[k]@ == JVal::Obj(subscription_addon_members(addons@[k])));
        }
        assert(crate::json::views_of(items@) =~= addons_jarr(addons@));
    }
    JsonValue::Arr(items)
}

/// The members subscription creation serializes to, in declaration order; the notify flag travels as the number one or zero.
pub open spec fn create_subscription_members(c: CreateSubscription) -> Seq<(Seq<char>, JVal)> {
    seq![
        ("plan_id"@, JVal::Str(c.plan_id@)),
        ("total_count"@, JVal::Num(crate::num::dec_str(c.total_count as int))),
    ] + (match c.quantity {
        Some(q) => seq![("quantity"@, JVal::Num(crate::num::dec_str(q as int)))],
        None => Seq::empty(),
    }) + (match c.start_at {
        Some(t) => seq![("start_at"@, JVal::Num(crate::num::dec_str(t as int)))],
        None => Seq::empty(),
    }) + (match c.expire_by {
        Some(t) => seq![("expire_by"@, JVal::Num(crate::num::dec_str(t as int)))],
        None => Seq::empty(),
    }) + (match c.customer_notify {
        Some(b) => seq![("customer_notify"@, JVal::Num(if b { "1"@ } else { "0"@ }))],
        None => Seq::empty(),
    }) + seq![("addons"@, JVal::Arr(addons_jarr(c.addons@)))] + (match c.offer_id {
        Some(o) => seq![("offer_id"@, JVal::Str(o@))],
        None => Seq::empty(),
    }) + (match c.notes {
        Some(o) => seq![("notes"@, JVal::Obj(crate::common::object_members(o@)))],
        None => Seq::empty(),
    }) + (match c.notify_info {
        Some(ni) => seq![("notify_info"@, JVal::Obj(notify_info_members(ni)))],
        None => Seq::empty(),
    })
}

impl<'a> CreateSubscription<'a> {
    /// Serializes these parameters as their JSON body.
    #[verifier::rlimit(60)]
    pub fn to_json(&self) -> (r: JsonValue)
        ensures
            r@ == JVal::Obj(create_subscription_members(*self)),
    {
        let mut members: Vec<(String, JsonValue)> = Vec::new();
        members.push((String::from_str("plan_id"), JsonValue::Str(self.plan_id.as_str().to_owned())));
        members.push(
            (
                String::from_str("total_count"),
                JsonValue::Num(crate::num::u64_to_string(self.total_count)),
            ),
        );
        if let Some(q) = self.quantity {
            members.push(
                (String::from_str("quantity"), JsonValue::Num(crate::num::u64_to_string(q))),
            );
        }
        if let Some(t) = self.start_at {
            members.push(
                (String::from_str("start_at"), JsonValue::Num(crate::num::i64_to_string(t))),
            );
        }
        if let Some(t) = self.expire_by {
            members.push(
                (String::from_str("expire_by"), JsonValue::Num(crate::num::i64_to_string(t))),
            );
        }
        if let Some(b) = self.customer_notify {
            members.push(
                (
                    String::from_str("customer_notify"),
                    JsonValue::Num(String::from_str(if b { "1" } else { "0" })),
                ),
            );
        }
        members.push((String::from_str("addons"), addons_to_json(self.addons)));
        if let Some(o) = &self.offer_id {
            members.push((String::from_str("offer_id"), JsonValue::Str(o.as_str().to_owned())));
        }
        if let Some(o) = &self.notes {
            members.push((String::from_str("notes"), crate::common::object_to_json(o)));
        }
        if let Some(ni) = &self.notify_info {
            members.push((String::from_str("notify_info"), ni.to_json()));
        }
        let ghost cm = create_subscription_members(*self);
        proof {
            let mv = crate::json::member_views_of(members@);
            assert(mv.len() == cm.len());
            assert forall|k: int| 0 <= k < mv.len() implies mv[k] == cm[k] by {
                assert(mv[k] == (members@[k].0@, members@[k].1.jval()));
            }
            assert(mv =~= cm);
        }
        JsonValue::Obj(members)
    }
}
/// The members a subscription update serializes to; the schedule always travels.
pub open spec fn update_subscription_members(c: UpdateSubscription) -> Seq<(Seq<char>, JVal)> {
    (match c.plan_id {
        Some(s) => seq![("plan_id"@, JVal::Str(s@))],
        None => Seq::empty(),
    }) + (match c.offer_id {
        Some(s) => seq![("offer_id"@, JVal::Str(s@))],
        None => Seq::empty(),
    }) + (match c.quantity {
        Some(q) => seq![("quantity"@, JVal::Num(crate::num::dec_str(q as int)))],
        None => Seq::empty(),
    }) + (match c.remaining_count {
        Some(q) => seq![("remaining_count"@, JVal::Num(crate::num::dec_str(q as int)))],
        None => Seq::empty(),
    }) + (match c.start_at {
        Some(t) => seq![("start_at"@, JVal::Num(crate::num::dec_str(t as int)))],
        None => Seq::empty(),
    }) + seq![("schedule_change_at"@, JVal::Str(change_schedule_code(c.schedule_change_at)))] + (
    match c.customer_notify {
        Some(b) => seq![("customer_notify"@, JVal::Bool(b))],
        None => Seq::empty(),
    })
}

impl<'a> UpdateSubscription<'a> {
    /// Serializes these parameters as their JSON body.
    #[verifier::rlimit(60)]
    pub fn to_json(&self) -> (r: JsonValue)
        ensures
            r@ == JVal::Obj(update_subscription_members(*self)),
    {
        let mut members: Vec<(String, JsonValue)> = Vec::new();
        if let Some(s) = self.plan_id {
            members.push((String::from_str("plan_id"), JsonValue::Str(s.to_owned())));
        }
        if let Some(s) = self.offer_id {
            members.push((String::from_str("offer_id"), JsonValue::Str(s.to_owned())));
        }
        if let Some(q) = self.quantity {
            members.push(
                (String::from_str("quantity"), JsonValue::Num(crate::num::u64_to_string(q))),
            );
        }
        if let Some(q) = self.remaining_count {
            members.push(
                (
                    String::from_str("remaining_count"),
                    JsonValue::Num(crate::num::u64_to_string(q)),
                ),
            );
        }
        if let Some(t) = self.start_at {
            members.push(
                (String::from_str("start_at"), JsonValue::Num(crate::num::i64_to_string(t))),
            );
        }
        members.push(
            (
                String::from_str("schedule_change_at"),
                JsonValue::Str(String::from_str(self.schedule_change_at.as_str())),
            ),
        );
        if let Some(b) = self.customer_notify {
            members.push((String::from_str("customer_notify"), JsonValue::Bool(b)));
        }
        let ghost cm = update_subscription_members(*self);
        proof {
            let mv = crate::json::member_views_of(members@);
            assert(mv.len() == cm.len());
            assert forall|k: int| 0 <= k < mv.len() implies mv[k] == cm[k] by {
                assert(mv[k] == (members@[k].0@, members@[k].1.jval()));
            }
            assert(mv =~= cm);
        }
        JsonValue::Obj(members)
    }
}
/// The members a subscription listing serializes to: the plan, then the filter flattened in place.
pub open spec fn list_subscriptions_members(c: ListSubscriptions) -> Seq<(Seq<char>, JVal)> {
    (match c.plan_id {
        Some(s) => seq![("plan_id"@, JVal::Str(s@))],
        None => Seq::empty(),
    }) + (match c.filter {
        Some(f) => crate::common::filter_members(f),
        None => Seq::empty(),
    })
}

impl<'a> ListSubscriptions<'a> {
    /// Serializes these parameters as their JSON body.
    pub fn to_json(&self) -> (r: JsonValue)
        ensures
            r@ == JVal::Obj(list_subscriptions_members(*self)),
    {
        let mut members: Vec<(String, JsonValue)> = Vec::new();
        if let Some(s) = self.plan_id {
            members.push((String::from_str("plan_id"), JsonValue::Str(s.to_owned())));
        }
        if let Some(f) = &self.filter {
            if let Some(t) = f.from {
                members.push(
                    (String::from_str("from"), JsonValue::Num(crate::num::i64_to_string(t))),
                );
            }
            if let Some(t) = f.to {
                members.push(
                    (String::from_str("to"), JsonValue::Num(crate::num::i64_to_string(t))),
                );
            }
            if let Some(n) = f.count {
                members.push(
                    (
                        String::from_str("count"),
                        JsonValue::Num(crate::num::u64_to_string(n as u64)),
                    ),
                );
            }
            if let Some(n) = f.skip {
                members.push(
                    (
                        String::from_str("skip"),
                        JsonValue::Num(crate::num::u64_to_string(n as u64)),
                    ),
                );
            }
        }
        let ghost cm = list_subscriptions_members(*self);
        proof {
            let mv = crate::json::member_views_of(members@);
            assert(mv.len() == cm.len());
            assert forall|k: int| 0 <= k < mv.len() implies mv[k] == cm[k] by {
                assert(mv[k] == (members@[k].0@, members@[k].1.jval()));
            }
            assert(mv =~= cm);
        }
        JsonValue::Obj(members)
    }
}

impl Subscription {
    /// The request subscription creation sends: a POST to
    /// `/subscriptions`.
    pub fn create_request(params: &CreateSubscription<'_>) -> (r: RequestParams)
        ensures
            r.url@ == "/subscriptions"@,
            r.version is None,
            r.data matches Some(d) && d@ == JVal::Obj(create_subscription_members(*params)),
    {
        RequestParams {
            url: String::from_str("/subscriptions"),
            version: None,
            data: Some(params.to_json()),
        }
    }

    /// The request a subscription listing sends: a GET of
    /// `/subscription` with plan and filter as query payload.
    pub fn list_request(params: Option<&ListSubscriptions<'_>>) -> (r: RequestParams)
        ensures
            r.url@ == "/subscription"@,
            r.version is None,
            match params {
                Some(p) => r.data matches Some(d) && d@ == JVal::Obj(
                    list_subscriptions_members(*p),
                ),
                None => r.data is None,
            },
    {
        RequestParams {
            url: String::from_str("/subscription"),
            version: None,
            data: match params {
                Some(p) => Some(p.to_json()),
                None => None,
            },
        }
    }

    /// The request a subscription update sends: a PATCH of
    /// `/subscriptions/{id}`.
    pub fn update_request(subscription_id: &SubscriptionId, params: &UpdateSubscription<'_>) -> (r:
        RequestParams)
        ensures
            r.url@ == "/subscriptions/"@ + subscription_id@,
            r.version is None,
            r.data matches Some(d) && d@ == JVal::Obj(update_subscription_members(*params)),
    {
        let mut url = String::from_str("/subscriptions/");
        url.append(subscription_id.as_str());
        RequestParams { url, version: None, data: Some(params.to_json()) }
    }
}

} // verus!
