//! Marker types for the fixed `entity` tag each wire object carries.

use vstd::prelude::*;

verus! {

/// The error for a tag that does not match the expected entity kind.
#[derive(Clone, Debug, PartialEq, Eq)]
pub struct EntityMismatch {
    pub typename: &'static str,
    pub expected: &'static str,
}

impl EntityMismatch {
    /// A short account of what was expected.
    pub fn message(&self) -> (r: String)
        ensures
            r@ == "invalid `"@ + self.typename@ + "`, expected `"@ + self.expected@ + "`"@,
    {
        let mut m = String::new();
        m.append("invalid `");
        m.append(self.typename);
        m.append("`, expected `");
        m.append(self.expected);
        m.append("`");
        m
    }
}

#[derive(Clone, Debug, PartialEq, Eq)]
pub struct InnEntity {
    _private: bool,
}

impl InnEntity {
    pub(crate) fn new() -> InnEntity {
        InnEntity { _private: false }
    }

    /// The fixed tag that marks this entity kind on the wire.
    pub fn as_str(&self) -> (r: &'static str)
        ensures
            r@ == "inn"@,
    {
        "inn"
    }

    /// Accepts exactly the tag `inn`.
    pub fn parse(s: &str) -> (r: Result<InnEntity, EntityMismatch>)
        ensures
            r is Ok <==> s@ == "inn"@,
    {
        if crate::strutil::str_eq(s, "inn") {
            Ok(InnEntity { _private: false })
        } else {
            Err(EntityMismatch { typename: "InnEntity", expected: "inn" })
        }
    }
}

#[derive(Clone, Debug, PartialEq, Eq)]
pub struct CardEntity {
    _private: bool,
}

impl CardEntity {
    pub(crate) fn new() -> CardEntity {
        CardEntity { _private: false }
    }

    /// The fixed tag that marks this entity kind on the wire.
    pub fn as_str(&self) -> (r: &'static str)
        ensures
            r@ == "card"@,
    {
        "card"
    }

    /// Accepts exactly the tag `card`.
    pub fn parse(s: &str) -> (r: Result<CardEntity, EntityMismatch>)
        ensures
            r is Ok <==> s@ == "card"@,
    {
        if crate::strutil::str_eq(s, "card") {
            Ok(CardEntity { _private: false })
        } else {
            Err(EntityMismatch { typename: "CardEntity", expected: "card" })
        }
    }
}

#[derive(Clone, Debug, PartialEq, Eq)]
pub struct PlanEntity {
    _private: bool,
}

impl PlanEntity {
    pub(crate) fn new() -> PlanEntity {
        PlanEntity { _private: false }
    }

    /// The fixed tag that marks this entity kind on the wire.
    pub fn as_str(&self) -> (r: &'static str)
        ensures
            r@ == "plan"@,
    {
        "plan"
    }

    /// Accepts exactly the tag `plan`.
    pub fn parse(s: &str) -> (r: Result<PlanEntity, EntityMismatch>)
        ensures
            r is Ok <==> s@ == "plan"@,
    {
        if crate::strutil::str_eq(s, "plan") {
            Ok(PlanEntity { _private: false })
        } else {
            Err(EntityMismatch { typename: "PlanEntity", expected: "plan" })
        }
    }
}

#[derive(Clone, Debug, PartialEq, Eq)]
pub struct OrderEntity {
    _private: bool,
}

impl OrderEntity {
    pub(crate) fn new() -> OrderEntity {
        OrderEntity { _private: false }
    }

    /// The fixed tag that marks this entity kind on the wire.
    pub fn as_str(&self) -> (r: &'static str)
        ensures
            r@ == "order"@,
    {
        "order"
    }

    /// Accepts exactly the tag `order`.
    pub fn parse(s: &str) -> (r: Result<OrderEntity, EntityMismatch>)
        ensures
            r is Ok <==> s@ == "order"@,
    {
        if crate::strutil::str_eq(s, "order") {
            Ok(OrderEntity { _private: false })
        } else {
            Err(EntityMismatch { typename: "OrderEntity", expected: "order" })
        }
    }
}

#[derive(Clone, Debug, PartialEq, Eq)]
pub struct AddonEntity {
    _private: bool,
}

impl AddonEntity {
    pub(crate) fn new() -> AddonEntity {
        AddonEntity { _private: false }
    }

    /// The fixed tag that marks this entity kind on the wire.
    pub fn as_str(&self) -> (r: &'static str)
        ensures
            r@ == "addon"@,
    {
        "addon"
    }

    /// Accepts exactly the tag `addon`.
    pub fn parse(s: &str) -> (r: Result<AddonEntity, EntityMismatch>)
        ensures
            r is Ok <==> s@ == "addon"@,
    {
        if crate::strutil::str_eq(s, "addon") {
            Ok(AddonEntity { _private: false })
        } else {
            Err(EntityMismatch { typename: "AddonEntity", expected: "addon" })
        }
    }
}

#[derive(Clone, Debug, PartialEq, Eq)]
pub struct RefundEntity {
    _private: bool,
}

impl RefundEntity {
    pub(crate) fn new() -> RefundEntity {
        RefundEntity { _private: false }
    }

    /// The fixed tag that marks this entity kind on the wire.
    pub fn as_str(&self) -> (r: &'static str)
        ensures
            r@ == "refund"@,
    {
        "refund"
    }

    /// Accepts exactly the tag `refund`.
    pub fn parse(s: &str) -> (r: Result<RefundEntity, EntityMismatch>)
        ensures
            r is Ok <==> s@ == "refund"@,
    {
        if crate::strutil::str_eq(s, "refund") {
            Ok(RefundEntity { _private: false })
        } else {
            Err(EntityMismatch { typename: "RefundEntity", expected: "refund" })
        }
    }
}

#[derive(Clone, Debug, PartialEq, Eq)]
pub struct DisputeEntity {
    _private: bool,
}

impl DisputeEntity {
    pub(crate) fn new() -> DisputeEntity {
        DisputeEntity { _private: false }
    }

    /// The fixed tag that marks this entity kind on the wire.
    pub fn as_str(&self) -> (r: &'static str)
        ensures
            r@ == "dispute"@,
    {
        "dispute"
    }

    /// Accepts exactly the tag `dispute`.
    pub fn parse(s: &str) -> (r: Result<DisputeEntity, EntityMismatch>)
        ensures
            r is Ok <==> s@ == "dispute"@,
    {
        if crate::strutil::str_eq(s, "dispute") {
            Ok(DisputeEntity { _private: false })
        } else {
            Err(EntityMismatch { typename: "DisputeEntity", expected: "dispute" })
        }
    }
}

#[derive(Clone, Debug, PartialEq, Eq)]
pub struct InvoiceEntity {
    _private: bool,
}

impl InvoiceEntity {
    pub(crate) fn new() -> InvoiceEntity {
        InvoiceEntity { _private: false }
    }

    /// The fixed tag that marks this entity kind on the wire.
    pub fn as_str(&self) -> (r: &'static str)
        ensures
            r@ == "invoice"@,
    {
        "invoice"
    }

    /// Accepts exactly the tag `invoice`.
    pub fn parse(s: &str) -> (r: Result<InvoiceEntity, EntityMismatch>)
        ensures
            r is Ok <==> s@ == "invoice"@,
    {
        if crate::strutil::str_eq(s, "invoice") {
            Ok(InvoiceEntity { _private: false })
        } else {
            Err(EntityMismatch { typename: "InvoiceEntity", expected: "invoice" })
        }
    }
}

#[derive(Clone, Debug, PartialEq, Eq)]
pub struct PaymentEntity {
    _private: bool,
}

impl PaymentEntity {
    pub(crate) fn new() -> PaymentEntity {
        PaymentEntity { _private: false }
    }

    /// The fixed tag that marks this entity kind on the wire.
    pub fn as_str(&self) -> (r: &'static str)
        ensures
            r@ == "payment"@,
    {
        "payment"
    }

    /// Accepts exactly the tag `payment`.
    pub fn parse(s: &str) -> (r: Result<PaymentEntity, EntityMismatch>)
        ensures
            r is Ok <==> s@ == "payment"@,
    {
        if crate::strutil::str_eq(s, "payment") {
            Ok(PaymentEntity { _private: false })
        } else {
            Err(EntityMismatch { typename: "PaymentEntity", expected: "payment" })
        }
    }
}

#[derive(Clone, Debug, PartialEq, Eq)]
pub struct WebhookEntity {
    _private: bool,
}

impl WebhookEntity {
    pub(crate) fn new() -> WebhookEntity {
        WebhookEntity { _private: false }
    }

    /// The fixed tag that marks this entity kind on the wire.
    pub fn as_str(&self) -> (r: &'static str)
        ensures
            r@ == "webhook"@,
    {
        "webhook"
    }

    /// Accepts exactly the tag `webhook`.
    pub fn parse(s: &str) -> (r: Result<WebhookEntity, EntityMismatch>)
        ensures
            r is Ok <==> s@ == "webhook"@,
    {
        if crate::strutil::str_eq(s, "webhook") {
            Ok(WebhookEntity { _private: false })
        } else {
            Err(EntityMismatch { typename: "WebhookEntity", expected: "webhook" })
        }
    }
}

#[derive(Clone, Debug, PartialEq, Eq)]
pub struct DocumentEntity {
    _private: bool,
}

impl DocumentEntity {
    pub(crate) fn new() -> DocumentEntity {
        DocumentEntity { _private: false }
    }

    /// The fixed tag that marks this entity kind on the wire.
    pub fn as_str(&self) -> (r: &'static str)
        ensures
            r@ == "document"@,
    {
        "document"
    }

    /// Accepts exactly the tag `document`.
    pub fn parse(s: &str) -> (r: Result<DocumentEntity, EntityMismatch>)
        ensures
            r is Ok <==> s@ == "document"@,
    {
        if crate::strutil::str_eq(s, "document") {
            Ok(DocumentEntity { _private: false })
        } else {
            Err(EntityMismatch { typename: "DocumentEntity", expected: "document" })
        }
    }
}

#[derive(Clone, Debug, PartialEq, Eq)]
pub struct DowntimeEntity {
    _private: bool,
}

impl DowntimeEntity {
    pub(crate) fn new() -> DowntimeEntity {
        DowntimeEntity { _private: false }
    }

    /// The fixed tag that marks this entity kind on the wire.
    pub fn as_str(&self) -> (r: &'static str)
        ensures
            r@ == "payment.downtime"@,
    {
        "payment.downtime"
    }

    /// Accepts exactly the tag `payment.downtime`.
    pub fn parse(s: &str) -> (r: Result<DowntimeEntity, EntityMismatch>)
        ensures
            r is Ok <==> s@ == "payment.downtime"@,
    {
        if crate::strutil::str_eq(s, "payment.downtime") {
            Ok(DowntimeEntity { _private: false })
        } else {
            Err(EntityMismatch { typename: "DowntimeEntity", expected: "payment.downtime" })
        }
    }
}

#[derive(Clone, Debug, PartialEq, Eq)]
pub struct CollectionEntity {
    _private: bool,
}

impl CollectionEntity {
    pub(crate) fn new() -> CollectionEntity {
        CollectionEntity { _private: false }
    }

    /// The fixed tag that marks this entity kind on the wire.
    pub fn as_str(&self) -> (r: &'static str)
        ensures
            r@ == "collection"@,
    {
        "collection"
    }

    /// Accepts exactly the tag `collection`.
    pub fn parse(s: &str) -> (r: Result<CollectionEntity, EntityMismatch>)
        ensures
            r is Ok <==> s@ == "collection"@,
    {
        if crate::strutil::str_eq(s, "collection") {
            Ok(CollectionEntity { _private: false })
        } else {
            Err(EntityMismatch { typename: "CollectionEntity", expected: "collection" })
        }
    }
}

#[derive(Clone, Debug, PartialEq, Eq)]
pub struct SettlementEntity {
    _private: bool,
}

impl SettlementEntity {
    pub(crate) fn new() -> SettlementEntity {
        SettlementEntity { _private: false }
    }

    /// The fixed tag that marks this entity kind on the wire.
    pub fn as_str(&self) -> (r: &'static str)
        ensures
            r@ == "settlement"@,
    {
        "settlement"
    }

    /// Accepts exactly the tag `settlement`.
    pub fn parse(s: &str) -> (r: Result<SettlementEntity, EntityMismatch>)
        ensures
            r is Ok <==> s@ == "settlement"@,
    {
        if crate::strutil::str_eq(s, "settlement") {
            Ok(SettlementEntity { _private: false })
        } else {
            Err(EntityMismatch { typename: "SettlementEntity", expected: "settlement" })
        }
    }
}

#[derive(Clone, Debug, PartialEq, Eq)]
pub struct SubscriptionEntity {
    _private: bool,
}

impl SubscriptionEntity {
    pub(crate) fn new() -> SubscriptionEntity {
        SubscriptionEntity { _private: false }
    }

    /// The fixed tag that marks this entity kind on the wire.
    pub fn as_str(&self) -> (r: &'static str)
        ensures
            r@ == "subscription"@,
    {
        "subscription"
    }

    /// Accepts exactly the tag `subscription`.
    pub fn parse(s: &str) -> (r: Result<SubscriptionEntity, EntityMismatch>)
        ensures
            r is Ok <==> s@ == "subscription"@,
    {
        if crate::strutil::str_eq(s, "subscription") {
            Ok(SubscriptionEntity { _private: false })
        } else {
            Err(EntityMismatch { typename: "SubscriptionEntity", expected: "subscription" })
        }
    }
}

#[derive(Clone, Debug, PartialEq, Eq)]
pub struct WebhookEventEntity {
    _private: bool,
}

impl WebhookEventEntity {
    pub(crate) fn new() -> WebhookEventEntity {
        WebhookEventEntity { _private: false }
    }

    /// The fixed tag that marks this entity kind on the wire.
    pub fn as_str(&self) -> (r: &'static str)
        ensures
            r@ == "event"@,
    {
        "event"
    }

    /// Accepts exactly the tag `event`.
    pub fn parse(s: &str) -> (r: Result<WebhookEventEntity, EntityMismatch>)
        ensures
            r is Ok <==> s@ == "event"@,
    {
        if crate::strutil::str_eq(s, "event") {
            Ok(WebhookEventEntity { _private: false })
        } else {
            Err(EntityMismatch { typename: "WebhookEventEntity", expected: "event" })
        }
    }
}

#[derive(Clone, Debug, PartialEq, Eq)]
pub struct InstantSettlementEntity {
    _private: bool,
}

impl InstantSettlementEntity {
    pub(crate) fn new() -> InstantSettlementEntity {
        InstantSettlementEntity { _private: false }
    }

    /// The fixed tag that marks this entity kind on the wire.
    pub fn as_str(&self) -> (r: &'static str)
        ensures
            r@ == "settlement.ondemand"@,
    {
        "settlement.ondemand"
    }

    /// Accepts exactly the tag `settlement.ondemand`.
    pub fn parse(s: &str) -> (r: Result<InstantSettlementEntity, EntityMismatch>)
        ensures
            r is Ok <==> s@ == "settlement.ondemand"@,
    {
        if crate::strutil::str_eq(s, "settlement.ondemand") {
            Ok(InstantSettlementEntity { _private: false })
        } else {
            Err(EntityMismatch { typename: "InstantSettlementEntity", expected: "settlement.ondemand" })
        }
    }
}

#[derive(Clone, Debug, PartialEq, Eq)]
pub struct InstantSettlementPayoutEntity {
    _private: bool,
}

impl InstantSettlementPayoutEntity {
    pub(crate) fn new() -> InstantSettlementPayoutEntity {
        InstantSettlementPayoutEntity { _private: false }
    }

    /// The fixed tag that marks this entity kind on the wire.
    pub fn as_str(&self) -> (r: &'static str)
        ensures
            r@ == "settlement.ondemand_payout"@,
    {
        "settlement.ondemand_payout"
    }

    /// Accepts exactly the tag `settlement.ondemand_payout`.
    pub fn parse(s: &str) -> (r: Result<InstantSettlementPayoutEntity, EntityMismatch>)
        ensures
            r is Ok <==> s@ == "settlement.ondemand_payout"@,
    {
        if crate::strutil::str_eq(s, "settlement.ondemand_payout") {
            Ok(InstantSettlementPayoutEntity { _private: false })
        } else {
            Err(EntityMismatch { typename: "InstantSettlementPayoutEntity", expected: "settlement.ondemand_payout" })
        }
    }
}

} // verus!
