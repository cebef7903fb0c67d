//! Offers as they appear on orders and payments.

use vstd::prelude::*;

use crate::json::{JVal, JsonValue};

use crate::ids::OfferId;

verus! {

#[derive(Clone, Debug, PartialEq, Eq)]
pub struct Offer {
    pub id: OfferId,
}


/// The mathematical content of an [`Offer`].
pub ghost struct OfferModel {
    pub id: Seq<char>,
}

impl Offer {
    pub open spec fn model(self) -> OfferModel {
        OfferModel { id: self.id@ }
    }
}

/// What an offer body decodes to: an object whose `id` is a string
/// with the offer prefix.
pub open spec fn sp_offer(v: JVal) -> Option<OfferModel> {
    match v {
        JVal::Obj(m) => match crate::decode::sp_req_str(crate::json::obj_get(m, "id"@)) {
            Some(id) => if crate::strutil::spec_is_prefix("offer_"@, id) {
                Some(OfferModel { id })
            } else {
                None
            },
            None => None,
        },
        _ => None,
    }
}

impl Offer {
    /// Decodes an offer body; `None` exactly where the body does not
    /// have the offer shape.
    pub fn from_json(v: &JsonValue) -> (r: Option<Offer>)
        ensures
            match (r, sp_offer(v@)) {
                (Some(o), Some(m)) => o.model() == m,
                (None, None) => true,
                _ => false,
            },
    {
        if !(v matches JsonValue::Obj(_)) {
            return None;
        }
        match crate::decode::req_str(v.get_member("id")) {
            Some(s) => match OfferId::parse(s.as_str()) {
                Ok(id) => Some(Offer { id }),
                Err(_) => None,
            },
            None => None,
        }
    }
}


/// The models of a sequence of decoded offers, element for element.
pub open spec fn offer_views(items: Seq<Offer>) -> Seq<OfferModel> {
    Seq::new(
        items.len(),
        |i: int|
            if 0 <= i < items.len() {
                items[i].model()
            } else {
                items[0].model()
            },
    )
}

/// The items of an offer listing, scanning from `i`: every element
/// must decode as an offer.
pub open spec fn sp_offer_items_from(items: Seq<JVal>, i: int) -> Option<Seq<OfferModel>>
    decreases items.len() - i,
{
    if !(0 <= i < items.len()) {
        Some(Seq::empty())
    } else {
        match sp_offer(items[i]) {
            Some(m) => match sp_offer_items_from(items, i + 1) {
                Some(rest) => Some(seq![m] + rest),
                None => None,
            },
            None => None,
        }
    }
}

/// What an offer listing decodes to: an object tagged
/// `entity: "collection"`, its count, and its items all offers.
pub open spec fn sp_offer_collection(v: JVal) -> Option<(int, Seq<OfferModel>)> {
    match v {
        JVal::Obj(m) => {
            if crate::decode::sp_req_str(crate::json::obj_get(m, "entity"@)) != Some(
                "collection"@,
            ) {
                None
            } else {
                match (crate::decode::sp_req_u64(crate::json::obj_get(m, "count"@)), (
                match crate::json::obj_get(m, "items"@) {
                    Some(JVal::Arr(items)) => sp_offer_items_from(items, 0),
                    _ => None,
                })) {
                    (Some(count), Some(items)) => if count <= usize::MAX {
                        Some((count as int, items))
                    } else {
                        None
                    },
                    _ => None,
                }
            }
        },
        _ => None,
    }
}

fn decode_offer_items(items: &Vec<JsonValue>, i: usize) -> (r: Option<Vec<Offer>>)
    requires
        i <= items@.len(),
    ensures
        match (r, sp_offer_items_from(crate::json::views_of(items@), i as int)) {
            (Some(os), Some(ms)) => offer_views(os@) == ms,
            (None, None) => true,
            _ => false,
        },
    decreases items@.len() - i,
{
    if i >= items.len() {
        let os: Vec<Offer> = Vec::new();
        proof {
            assert(offer_views(os@) =~= Seq::<OfferModel>::empty());
        }
        Some(os)
    } else {
        proof {
            assert(crate::json::views_of(items@)[i as int] == items@[i as int].jval());
        }
        match Offer::from_json(&items[i]) {
            None => None,
            Some(o) => match decode_offer_items(items, i + 1) {
                None => None,
                Some(mut rest) => {
                    let ghost rpre = rest@;
                    let ghost om = o.model();
                    rest.insert(0, o);
                    proof {
                        let sv = crate::json::views_of(items@);
                        let srest = sp_offer_items_from(sv, i as int + 1)->Some_0;
                        assert(rest@ =~= seq![rest@[0]] + rpre);
                        assert forall|q: int| 0 <= q < srest.len() + 1 implies offer_views(
                            rest@,
                        )[q] == (seq![om] + srest)[q] by {
                            if q > 0 {
                                assert(offer_views(rpre)[q - 1] == srest[q - 1]);
                            }
                        }
                        assert(offer_views(rest@) =~= seq![om] + srest);
                    }
                    Some(rest)
                },
            },
        }
    }
}

impl Offer {
    /// Decodes an offer listing; `None` exactly where the body does
    /// not have the collection-of-offers shape.
    pub fn collection_from_json(v: &JsonValue) -> (r: Option<crate::common::Collection<Offer>>)
        ensures
            match (r, sp_offer_collection(v@)) {
                (Some(c), Some((count, items))) => c.count as int == count && offer_views(c.items@)
                    == items,
                (None, None) => true,
                _ => false,
            },
    {
        if !(v matches JsonValue::Obj(_)) {
            return None;
        }
        let entity = match crate::decode::req_str(v.get_member("entity")) {
            Some(s) => match crate::entity::CollectionEntity::parse(s.as_str()) {
                Ok(e) => e,
                Err(_) => { return None },
            },
            None => { return None },
        };
        let count64 = match crate::decode::req_u64(v.get_member("count")) {
            Some(n) => n,
            None => { return None },
        };
        if count64 > usize::MAX as u64 {
            return None;
        }
        let items = match v.get_member("items") {
            Some(JsonValue::Arr(items)) => match decode_offer_items(items, 0) {
                Some(os) => os,
                None => { return None },
            },
            _ => { return None },
        };
        Some(crate::common::Collection { entity, count: count64 as usize, items })
    }
}

} // verus!
