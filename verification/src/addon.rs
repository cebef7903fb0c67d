//! Add-ons charged on top of subscriptions.

use vstd::prelude::*;

use crate::api::RequestParams;
use crate::common::Filter;
use crate::ids::SubscriptionId;
use crate::json::{JVal, JsonValue};

use crate::item::CreateItem;
use crate::common::Timestamp;
use crate::ids::AddonId;
use crate::ids::InvoiceId;
use crate::item::Item;

verus! {

#[derive(Clone, Debug, PartialEq, Eq)]
pub struct Addon {
    pub id: AddonId,
    pub item: Item,
    pub quantity: u64,
    pub created_at: Timestamp,
    pub subscription_id: String,
    pub invoice_id: Option<InvoiceId>,
}

#[derive(Clone, Debug, PartialEq, Eq)]
pub struct CreateAddon<'a> {
    pub item: CreateItem<'a>,
    pub quantity: u64,
}

/// The members add-on creation serializes to: the billed item and its quantity.
pub open spec fn create_addon_members(c: CreateAddon) -> Seq<(Seq<char>, JVal)> {
    seq![
        ("item"@, JVal::Obj(crate::item::create_item_members(c.item))),
        ("quantity"@, JVal::Num(crate::num::dec_str(c.quantity as int))),
    ]
}

impl<'a> CreateAddon<'a> {
    /// Serializes these parameters as their JSON body.
    pub fn to_json(&self) -> (r: JsonValue)
        ensures
            r@ == JVal::Obj(create_addon_members(*self)),
    {
        let mut members: Vec<(String, JsonValue)> = Vec::new();
        members.push((String::from_str("item"), self.item.to_json()));
        members.push(
            (
                String::from_str("quantity"),
                JsonValue::Num(crate::num::u64_to_string(self.quantity)),
            ),
        );
        let ghost cm = create_addon_members(*self);
        proof {
            let mv = crate::json::member_views_of(members@);
            assert(mv.len() == cm.len());
            assert forall|k: int| 0 <= k < mv.len() implies mv[k] == cm[k] by {
                assert(mv[k] == (members@[k].0@, members@[k].1.jval()));
            }
            assert(mv =~= cm);
        }
        JsonValue::Obj(members)
    }
}

impl Addon {
    /// The request add-on creation sends: a POST to
    /// `/subscriptions/{id}/addons`.
    pub fn create_request(subscription_id: &SubscriptionId, params: &CreateAddon<'_>) -> (r:
        RequestParams)
        ensures
            r.url@ == "/subscriptions/"@ + subscription_id@ + "/addons"@,
            r.version is None,
            r.data matches Some(d) && d@ == JVal::Obj(create_addon_members(*params)),
    {
        let mut url = String::from_str("/subscriptions/");
        url.append(subscription_id.as_str());
        url.append("/addons");
        RequestParams { url, version: None, data: Some(params.to_json()) }
    }

    /// The request an add-on listing sends: a GET of `/addons` with
    /// the filter as query payload.
    pub fn list_request(filter: Option<&Filter>) -> (r: RequestParams)
        ensures
            r.url@ == "/addons"@,
            r.version is None,
            match filter {
                Some(f) => r.data matches Some(d) && d@ == JVal::Obj(
                    crate::common::filter_members(*f),
                ),
                None => r.data is None,
            },
    {
        RequestParams {
            url: String::from_str("/addons"),
            version: None,
            data: match filter {
                Some(f) => Some(f.to_json()),
                None => None,
            },
        }
    }

    /// The request an add-on fetch sends: a GET of `/addons/{id}`.
    pub fn fetch_request(addon_id: &AddonId) -> (r: RequestParams)
        ensures
            r.url@ == "/addons/"@ + addon_id@,
            r.version is None,
            r.data is None,
    {
        let mut url = String::from_str("/addons/");
        url.append(addon_id.as_str());
        RequestParams { url, version: None, data: None }
    }

    /// The request an add-on removal sends: a DELETE of
    /// `/addons/{id}`.
    pub fn delete_request(addon_id: &AddonId) -> (r: RequestParams)
        ensures
            r.url@ == "/addons/"@ + addon_id@,
            r.version is None,
            r.data is None,
    {
        let mut url = String::from_str("/addons/");
        url.append(addon_id.as_str());
        RequestParams { url, version: None, data: None }
    }
}

} // verus!
