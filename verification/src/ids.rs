//! Validated identifier types: each id kind carries a fixed prefix and
//! is built only through a checking parse.

use vstd::prelude::*;

use crate::strutil::spec_is_prefix;

verus! {

/// The error for an id that does not carry the expected prefix.
#[derive(Clone, Debug, PartialEq, Eq)]
pub struct ParseIdError {
    pub typename: &'static str,
    pub expected: &'static str,
}

impl ParseIdError {
    /// A short account of what was expected.
    pub fn message(&self) -> (r: String)
        ensures
            r@ == "invalid `"@ + self.typename@ + "`, expected id to start with `"@
                + self.expected@ + "`"@,
    {
        let mut m = String::new();
        m.append("invalid `");
        m.append(self.typename);
        m.append("`, expected id to start with `");
        m.append(self.expected);
        m.append("`");
        m
    }
}

/// An id for the corresponding entity type; always starts with
/// `card_`.
#[derive(Clone, Debug, PartialEq, Eq)]
pub struct CardId(String);

impl View for CardId {
    type V = Seq<char>;

    closed spec fn view(&self) -> Seq<char> {
        self.0@
    }
}

impl CardId {
    /// The prefix of this id type.
    pub fn prefix() -> (r: &'static str)
        ensures
            r@ == "card_"@,
    {
        "card_"
    }

    /// The whole id as text.
    pub fn as_str(&self) -> (r: &str)
        ensures
            r@ == self@,
    {
        self.0.as_str()
    }

    /// Accepts exactly the strings that start with `card_`.
    pub fn parse(s: &str) -> (r: Result<CardId, ParseIdError>)
        ensures
            r matches Ok(id) ==> id@ == s@ && spec_is_prefix("card_"@, s@),
            r is Err <==> !spec_is_prefix("card_"@, s@),
    {
        if crate::strutil::str_has_prefix(s, "card_") {
            Ok(CardId(s.to_owned()))
        } else {
            Err(ParseIdError { typename: "CardId", expected: "card_" })
        }
    }
}

/// An id for the corresponding entity type; always starts with
/// `item_`.
#[derive(Clone, Debug, PartialEq, Eq)]
pub struct ItemId(String);

impl View for ItemId {
    type V = Seq<char>;

    closed spec fn view(&self) -> Seq<char> {
        self.0@
    }
}

impl ItemId {
    /// The prefix of this id type.
    pub fn prefix() -> (r: &'static str)
        ensures
            r@ == "item_"@,
    {
        "item_"
    }

    /// The whole id as text.
    pub fn as_str(&self) -> (r: &str)
        ensures
            r@ == self@,
    {
        self.0.as_str()
    }

    /// Accepts exactly the strings that start with `item_`.
    pub fn parse(s: &str) -> (r: Result<ItemId, ParseIdError>)
        ensures
            r matches Ok(id) ==> id@ == s@ && spec_is_prefix("item_"@, s@),
            r is Err <==> !spec_is_prefix("item_"@, s@),
    {
        if crate::strutil::str_has_prefix(s, "item_") {
            Ok(ItemId(s.to_owned()))
        } else {
            Err(ParseIdError { typename: "ItemId", expected: "item_" })
        }
    }
}

/// An id for the corresponding entity type; always starts with
/// `plan_`.
#[derive(Clone, Debug, PartialEq, Eq)]
pub struct PlanId(String);

impl View for PlanId {
    type V = Seq<char>;

    closed spec fn view(&self) -> Seq<char> {
        self.0@
    }
}

impl PlanId {
    /// The prefix of this id type.
    pub fn prefix() -> (r: &'static str)
        ensures
            r@ == "plan_"@,
    {
        "plan_"
    }

    /// The whole id as text.
    pub fn as_str(&self) -> (r: &str)
        ensures
            r@ == self@,
    {
        self.0.as_str()
    }

    /// Accepts exactly the strings that start with `plan_`.
    pub fn parse(s: &str) -> (r: Result<PlanId, ParseIdError>)
        ensures
            r matches Ok(id) ==> id@ == s@ && spec_is_prefix("plan_"@, s@),
            r is Err <==> !spec_is_prefix("plan_"@, s@),
    {
        if crate::strutil::str_has_prefix(s, "plan_") {
            Ok(PlanId(s.to_owned()))
        } else {
            Err(ParseIdError { typename: "PlanId", expected: "plan_" })
        }
    }
}

/// An id for the corresponding entity type; always starts with
/// `ao_`.
#[derive(Clone, Debug, PartialEq, Eq)]
pub struct AddonId(String);

impl View for AddonId {
    type V = Seq<char>;

    closed spec fn view(&self) -> Seq<char> {
        self.0@
    }
}

impl AddonId {
    /// The prefix of this id type.
    pub fn prefix() -> (r: &'static str)
        ensures
            r@ == "ao_"@,
    {
        "ao_"
    }

    /// The whole id as text.
    pub fn as_str(&self) -> (r: &str)
        ensures
            r@ == self@,
    {
        self.0.as_str()
    }

    /// Accepts exactly the strings that start with `ao_`.
    pub fn parse(s: &str) -> (r: Result<AddonId, ParseIdError>)
        ensures
            r matches Ok(id) ==> id@ == s@ && spec_is_prefix("ao_"@, s@),
            r is Err <==> !spec_is_prefix("ao_"@, s@),
    {
        if crate::strutil::str_has_prefix(s, "ao_") {
            Ok(AddonId(s.to_owned()))
        } else {
            Err(ParseIdError { typename: "AddonId", expected: "ao_" })
        }
    }
}

/// An id for the corresponding entity type; always starts with
/// `order_`.
#[derive(Clone, Debug, PartialEq, Eq)]
pub struct OrderId(String);

impl View for OrderId {
    type V = Seq<char>;

    closed spec fn view(&self) -> Seq<char> {
        self.0@
    }
}

impl OrderId {
    /// The prefix of this id type.
    pub fn prefix() -> (r: &'static str)
        ensures
            r@ == "order_"@,
    {
        "order_"
    }

    /// The whole id as text.
    pub fn as_str(&self) -> (r: &str)
        ensures
            r@ == self@,
    {
        self.0.as_str()
    }

    /// Accepts exactly the strings that start with `order_`.
    pub fn parse(s: &str) -> (r: Result<OrderId, ParseIdError>)
        ensures
            r matches Ok(id) ==> id@ == s@ && spec_is_prefix("order_"@, s@),
            r is Err <==> !spec_is_prefix("order_"@, s@),
    {
        if crate::strutil::str_has_prefix(s, "order_") {
            Ok(OrderId(s.to_owned()))
        } else {
            Err(ParseIdError { typename: "OrderId", expected: "order_" })
        }
    }
}

/// An id for the corresponding entity type; always starts with
/// `offer_`.
#[derive(Clone, Debug, PartialEq, Eq)]
pub struct OfferId(String);

impl View for OfferId {
    type V = Seq<char>;

    closed spec fn view(&self) -> Seq<char> {
        self.0@
    }
}

impl OfferId {
    /// The prefix of this id type.
    pub fn prefix() -> (r: &'static str)
        ensures
            r@ == "offer_"@,
    {
        "offer_"
    }

    /// The whole id as text.
    pub fn as_str(&self) -> (r: &str)
        ensures
            r@ == self@,
    {
        self.0.as_str()
    }

    /// Accepts exactly the strings that start with `offer_`.
    pub fn parse(s: &str) -> (r: Result<OfferId, ParseIdError>)
        ensures
            r matches Ok(id) ==> id@ == s@ && spec_is_prefix("offer_"@, s@),
            r is Err <==> !spec_is_prefix("offer_"@, s@),
    {
        if crate::strutil::str_has_prefix(s, "offer_") {
            Ok(OfferId(s.to_owned()))
        } else {
            Err(ParseIdError { typename: "OfferId", expected: "offer_" })
        }
    }
}

/// An id for the corresponding entity type; always starts with
/// `batch_`.
#[derive(Clone, Debug, PartialEq, Eq)]
pub struct BatchId(String);

impl View for BatchId {
    type V = Seq<char>;

    closed spec fn view(&self) -> Seq<char> {
        self.0@
    }
}

impl BatchId {
    /// The prefix of this id type.
    pub fn prefix() -> (r: &'static str)
        ensures
            r@ == "batch_"@,
    {
        "batch_"
    }

    /// The whole id as text.
    pub fn as_str(&self) -> (r: &str)
        ensures
            r@ == self@,
    {
        self.0.as_str()
    }

    /// Accepts exactly the strings that start with `batch_`.
    pub fn parse(s: &str) -> (r: Result<BatchId, ParseIdError>)
        ensures
            r matches Ok(id) ==> id@ == s@ && spec_is_prefix("batch_"@, s@),
            r is Err <==> !spec_is_prefix("batch_"@, s@),
    {
        if crate::strutil::str_has_prefix(s, "batch_") {
            Ok(BatchId(s.to_owned()))
        } else {
            Err(ParseIdError { typename: "BatchId", expected: "batch_" })
        }
    }
}

/// An id for the corresponding entity type; always starts with
/// `rfnd_`.
#[derive(Clone, Debug, PartialEq, Eq)]
pub struct RefundId(String);

impl View for RefundId {
    type V = Seq<char>;

    closed spec fn view(&self) -> Seq<char> {
        self.0@
    }
}

impl RefundId {
    /// The prefix of this id type.
    pub fn prefix() -> (r: &'static str)
        ensures
            r@ == "rfnd_"@,
    {
        "rfnd_"
    }

    /// The whole id as text.
    pub fn as_str(&self) -> (r: &str)
        ensures
            r@ == self@,
    {
        self.0.as_str()
    }

    /// Accepts exactly the strings that start with `rfnd_`.
    pub fn parse(s: &str) -> (r: Result<RefundId, ParseIdError>)
        ensures
            r matches Ok(id) ==> id@ == s@ && spec_is_prefix("rfnd_"@, s@),
            r is Err <==> !spec_is_prefix("rfnd_"@, s@),
    {
        if crate::strutil::str_has_prefix(s, "rfnd_") {
            Ok(RefundId(s.to_owned()))
        } else {
            Err(ParseIdError { typename: "RefundId", expected: "rfnd_" })
        }
    }
}

/// An id for the corresponding entity type; always starts with
/// `acc_`.
#[derive(Clone, Debug, PartialEq, Eq)]
pub struct AccountId(String);

impl View for AccountId {
    type V = Seq<char>;

    closed spec fn view(&self) -> Seq<char> {
        self.0@
    }
}

impl AccountId {
    /// The prefix of this id type.
    pub fn prefix() -> (r: &'static str)
        ensures
            r@ == "acc_"@,
    {
        "acc_"
    }

    /// The whole id as text.
    pub fn as_str(&self) -> (r: &str)
        ensures
            r@ == self@,
    {
        self.0.as_str()
    }

    /// Accepts exactly the strings that start with `acc_`.
    pub fn parse(s: &str) -> (r: Result<AccountId, ParseIdError>)
        ensures
            r matches Ok(id) ==> id@ == s@ && spec_is_prefix("acc_"@, s@),
            r is Err <==> !spec_is_prefix("acc_"@, s@),
    {
        if crate::strutil::str_has_prefix(s, "acc_") {
            Ok(AccountId(s.to_owned()))
        } else {
            Err(ParseIdError { typename: "AccountId", expected: "acc_" })
        }
    }
}

/// An id for the corresponding entity type; always starts with
/// `addr_`.
#[derive(Clone, Debug, PartialEq, Eq)]
pub struct AddressId(String);

impl View for AddressId {
    type V = Seq<char>;

    closed spec fn view(&self) -> Seq<char> {
        self.0@
    }
}

impl AddressId {
    /// The prefix of this id type.
    pub fn prefix() -> (r: &'static str)
        ensures
            r@ == "addr_"@,
    {
        "addr_"
    }

    /// The whole id as text.
    pub fn as_str(&self) -> (r: &str)
        ensures
            r@ == self@,
    {
        self.0.as_str()
    }

    /// Accepts exactly the strings that start with `addr_`.
    pub fn parse(s: &str) -> (r: Result<AddressId, ParseIdError>)
        ensures
            r matches Ok(id) ==> id@ == s@ && spec_is_prefix("addr_"@, s@),
            r is Err <==> !spec_is_prefix("addr_"@, s@),
    {
        if crate::strutil::str_has_prefix(s, "addr_") {
            Ok(AddressId(s.to_owned()))
        } else {
            Err(ParseIdError { typename: "AddressId", expected: "addr_" })
        }
    }
}

/// An id for the corresponding entity type; always starts with
/// `disp_`.
#[derive(Clone, Debug, PartialEq, Eq)]
pub struct DisputeId(String);

impl View for DisputeId {
    type V = Seq<char>;

    closed spec fn view(&self) -> Seq<char> {
        self.0@
    }
}

impl DisputeId {
    /// The prefix of this id type.
    pub fn prefix() -> (r: &'static str)
        ensures
            r@ == "disp_"@,
    {
        "disp_"
    }

    /// The whole id as text.
    pub fn as_str(&self) -> (r: &str)
        ensures
            r@ == self@,
    {
        self.0.as_str()
    }

    /// Accepts exactly the strings that start with `disp_`.
    pub fn parse(s: &str) -> (r: Result<DisputeId, ParseIdError>)
        ensures
            r matches Ok(id) ==> id@ == s@ && spec_is_prefix("disp_"@, s@),
            r is Err <==> !spec_is_prefix("disp_"@, s@),
    {
        if crate::strutil::str_has_prefix(s, "disp_") {
            Ok(DisputeId(s.to_owned()))
        } else {
            Err(ParseIdError { typename: "DisputeId", expected: "disp_" })
        }
    }
}

/// An id for the corresponding entity type; always starts with
/// `inv_`.
#[derive(Clone, Debug, PartialEq, Eq)]
pub struct InvoiceId(String);

impl View for InvoiceId {
    type V = Seq<char>;

    closed spec fn view(&self) -> Seq<char> {
        self.0@
    }
}

impl InvoiceId {
    /// The prefix of this id type.
    pub fn prefix() -> (r: &'static str)
        ensures
            r@ == "inv_"@,
    {
        "inv_"
    }

    /// The whole id as text.
    pub fn as_str(&self) -> (r: &str)
        ensures
            r@ == self@,
    {
        self.0.as_str()
    }

    /// Accepts exactly the strings that start with `inv_`.
    pub fn parse(s: &str) -> (r: Result<InvoiceId, ParseIdError>)
        ensures
            r matches Ok(id) ==> id@ == s@ && spec_is_prefix("inv_"@, s@),
            r is Err <==> !spec_is_prefix("inv_"@, s@),
    {
        if crate::strutil::str_has_prefix(s, "inv_") {
            Ok(InvoiceId(s.to_owned()))
        } else {
            Err(ParseIdError { typename: "InvoiceId", expected: "inv_" })
        }
    }
}

/// An id for the corresponding entity type; always starts with
/// `pay_`.
#[derive(Clone, Debug, PartialEq, Eq)]
pub struct PaymentId(String);

impl View for PaymentId {
    type V = Seq<char>;

    closed spec fn view(&self) -> Seq<char> {
        self.0@
    }
}

impl PaymentId {
    /// The prefix of this id type.
    pub fn prefix() -> (r: &'static str)
        ensures
            r@ == "pay_"@,
    {
        "pay_"
    }

    /// The whole id as text.
    pub fn as_str(&self) -> (r: &str)
        ensures
            r@ == self@,
    {
        self.0.as_str()
    }

    /// Accepts exactly the strings that start with `pay_`.
    pub fn parse(s: &str) -> (r: Result<PaymentId, ParseIdError>)
        ensures
            r matches Ok(id) ==> id@ == s@ && spec_is_prefix("pay_"@, s@),
            r is Err <==> !spec_is_prefix("pay_"@, s@),
    {
        if crate::strutil::str_has_prefix(s, "pay_") {
            Ok(PaymentId(s.to_owned()))
        } else {
            Err(ParseIdError { typename: "PaymentId", expected: "pay_" })
        }
    }
}

/// An id for the corresponding entity type; always starts with
/// `cust_`.
#[derive(Clone, Debug, PartialEq, Eq)]
pub struct CustomerId(String);

impl View for CustomerId {
    type V = Seq<char>;

    closed spec fn view(&self) -> Seq<char> {
        self.0@
    }
}

impl CustomerId {
    /// The prefix of this id type.
    pub fn prefix() -> (r: &'static str)
        ensures
            r@ == "cust_"@,
    {
        "cust_"
    }

    /// The whole id as text.
    pub fn as_str(&self) -> (r: &str)
        ensures
            r@ == self@,
    {
        self.0.as_str()
    }

    /// Accepts exactly the strings that start with `cust_`.
    pub fn parse(s: &str) -> (r: Result<CustomerId, ParseIdError>)
        ensures
            r matches Ok(id) ==> id@ == s@ && spec_is_prefix("cust_"@, s@),
            r is Err <==> !spec_is_prefix("cust_"@, s@),
    {
        if crate::strutil::str_has_prefix(s, "cust_") {
            Ok(CustomerId(s.to_owned()))
        } else {
            Err(ParseIdError { typename: "CustomerId", expected: "cust_" })
        }
    }
}

/// An id for the corresponding entity type; always starts with
/// `down_`.
#[derive(Clone, Debug, PartialEq, Eq)]
pub struct DowntimeId(String);

impl View for DowntimeId {
    type V = Seq<char>;

    closed spec fn view(&self) -> Seq<char> {
        self.0@
    }
}

impl DowntimeId {
    /// The prefix of this id type.
    pub fn prefix() -> (r: &'static str)
        ensures
            r@ == "down_"@,
    {
        "down_"
    }

    /// The whole id as text.
    pub fn as_str(&self) -> (r: &str)
        ensures
            r@ == self@,
    {
        self.0.as_str()
    }

    /// Accepts exactly the strings that start with `down_`.
    pub fn parse(s: &str) -> (r: Result<DowntimeId, ParseIdError>)
        ensures
            r matches Ok(id) ==> id@ == s@ && spec_is_prefix("down_"@, s@),
            r is Err <==> !spec_is_prefix("down_"@, s@),
    {
        if crate::strutil::str_has_prefix(s, "down_") {
            Ok(DowntimeId(s.to_owned()))
        } else {
            Err(ParseIdError { typename: "DowntimeId", expected: "down_" })
        }
    }
}

/// An id for the corresponding entity type; always starts with
/// `doc_`.
#[derive(Clone, Debug, PartialEq, Eq)]
pub struct DocumentId(String);

impl View for DocumentId {
    type V = Seq<char>;

    closed spec fn view(&self) -> Seq<char> {
        self.0@
    }
}

impl DocumentId {
    /// The prefix of this id type.
    pub fn prefix() -> (r: &'static str)
        ensures
            r@ == "doc_"@,
    {
        "doc_"
    }

    /// The whole id as text.
    pub fn as_str(&self) -> (r: &str)
        ensures
            r@ == self@,
    {
        self.0.as_str()
    }

    /// Accepts exactly the strings that start with `doc_`.
    pub fn parse(s: &str) -> (r: Result<DocumentId, ParseIdError>)
        ensures
            r matches Ok(id) ==> id@ == s@ && spec_is_prefix("doc_"@, s@),
            r is Err <==> !spec_is_prefix("doc_"@, s@),
    {
        if crate::strutil::str_has_prefix(s, "doc_") {
            Ok(DocumentId(s.to_owned()))
        } else {
            Err(ParseIdError { typename: "DocumentId", expected: "doc_" })
        }
    }
}

/// An id for the corresponding entity type; always starts with
/// `trf_`.
#[derive(Clone, Debug, PartialEq, Eq)]
pub struct TransferId(String);

impl View for TransferId {
    type V = Seq<char>;

    closed spec fn view(&self) -> Seq<char> {
        self.0@
    }
}

impl TransferId {
    /// The prefix of this id type.
    pub fn prefix() -> (r: &'static str)
        ensures
            r@ == "trf_"@,
    {
        "trf_"
    }

    /// The whole id as text.
    pub fn as_str(&self) -> (r: &str)
        ensures
            r@ == self@,
    {
        self.0.as_str()
    }

    /// Accepts exactly the strings that start with `trf_`.
    pub fn parse(s: &str) -> (r: Result<TransferId, ParseIdError>)
        ensures
            r matches Ok(id) ==> id@ == s@ && spec_is_prefix("trf_"@, s@),
            r is Err <==> !spec_is_prefix("trf_"@, s@),
    {
        if crate::strutil::str_has_prefix(s, "trf_") {
            Ok(TransferId(s.to_owned()))
        } else {
            Err(ParseIdError { typename: "TransferId", expected: "trf_" })
        }
    }
}

/// An id for the corresponding entity type; always starts with
/// `li_`.
#[derive(Clone, Debug, PartialEq, Eq)]
pub struct LineItemId(String);

impl View for LineItemId {
    type V = Seq<char>;

    closed spec fn view(&self) -> Seq<char> {
        self.0@
    }
}

impl LineItemId {
    /// The prefix of this id type.
    pub fn prefix() -> (r: &'static str)
        ensures
            r@ == "li_"@,
    {
        "li_"
    }

    /// The whole id as text.
    pub fn as_str(&self) -> (r: &str)
        ensures
            r@ == self@,
    {
        self.0.as_str()
    }

    /// Accepts exactly the strings that start with `li_`.
    pub fn parse(s: &str) -> (r: Result<LineItemId, ParseIdError>)
        ensures
            r matches Ok(id) ==> id@ == s@ && spec_is_prefix("li_"@, s@),
            r is Err <==> !spec_is_prefix("li_"@, s@),
    {
        if crate::strutil::str_has_prefix(s, "li_") {
            Ok(LineItemId(s.to_owned()))
        } else {
            Err(ParseIdError { typename: "LineItemId", expected: "li_" })
        }
    }
}

/// An id for the corresponding entity type; always starts with
/// `adj_`.
#[derive(Clone, Debug, PartialEq, Eq)]
pub struct AdjustmentId(String);

impl View for AdjustmentId {
    type V = Seq<char>;

    closed spec fn view(&self) -> Seq<char> {
        self.0@
    }
}

impl AdjustmentId {
    /// The prefix of this id type.
    pub fn prefix() -> (r: &'static str)
        ensures
            r@ == "adj_"@,
    {
        "adj_"
    }

    /// The whole id as text.
    pub fn as_str(&self) -> (r: &str)
        ensures
            r@ == self@,
    {
        self.0.as_str()
    }

    /// Accepts exactly the strings that start with `adj_`.
    pub fn parse(s: &str) -> (r: Result<AdjustmentId, ParseIdError>)
        ensures
            r matches Ok(id) ==> id@ == s@ && spec_is_prefix("adj_"@, s@),
            r is Err <==> !spec_is_prefix("adj_"@, s@),
    {
        if crate::strutil::str_has_prefix(s, "adj_") {
            Ok(AdjustmentId(s.to_owned()))
        } else {
            Err(ParseIdError { typename: "AdjustmentId", expected: "adj_" })
        }
    }
}

/// An id for the corresponding entity type; always starts with
/// `setl_`.
#[derive(Clone, Debug, PartialEq, Eq)]
pub struct SettlementId(String);

impl View for SettlementId {
    type V = Seq<char>;

    closed spec fn view(&self) -> Seq<char> {
        self.0@
    }
}

impl SettlementId {
    /// The prefix of this id type.
    pub fn prefix() -> (r: &'static str)
        ensures
            r@ == "setl_"@,
    {
        "setl_"
    }

    /// The whole id as text.
    pub fn as_str(&self) -> (r: &str)
        ensures
            r@ == self@,
    {
        self.0.as_str()
    }

    /// Accepts exactly the strings that start with `setl_`.
    pub fn parse(s: &str) -> (r: Result<SettlementId, ParseIdError>)
        ensures
            r matches Ok(id) ==> id@ == s@ && spec_is_prefix("setl_"@, s@),
            r is Err <==> !spec_is_prefix("setl_"@, s@),
    {
        if crate::strutil::str_has_prefix(s, "setl_") {
            Ok(SettlementId(s.to_owned()))
        } else {
            Err(ParseIdError { typename: "SettlementId", expected: "setl_" })
        }
    }
}

/// An id for the corresponding entity type; always starts with
/// `sub_`.
#[derive(Clone, Debug, PartialEq, Eq)]
pub struct SubscriptionId(String);

impl View for SubscriptionId {
    type V = Seq<char>;

    closed spec fn view(&self) -> Seq<char> {
        self.0@
    }
}

impl SubscriptionId {
    /// The prefix of this id type.
    pub fn prefix() -> (r: &'static str)
        ensures
            r@ == "sub_"@,
    {
        "sub_"
    }

    /// The whole id as text.
    pub fn as_str(&self) -> (r: &str)
        ensures
            r@ == self@,
    {
        self.0.as_str()
    }

    /// Accepts exactly the strings that start with `sub_`.
    pub fn parse(s: &str) -> (r: Result<SubscriptionId, ParseIdError>)
        ensures
            r matches Ok(id) ==> id@ == s@ && spec_is_prefix("sub_"@, s@),
            r is Err <==> !spec_is_prefix("sub_"@, s@),
    {
        if crate::strutil::str_has_prefix(s, "sub_") {
            Ok(SubscriptionId(s.to_owned()))
        } else {
            Err(ParseIdError { typename: "SubscriptionId", expected: "sub_" })
        }
    }
}

/// An id for the corresponding entity type; always starts with
/// `setlod_`.
#[derive(Clone, Debug, PartialEq, Eq)]
pub struct InstantSettlementId(String);

impl View for InstantSettlementId {
    type V = Seq<char>;

    closed spec fn view(&self) -> Seq<char> {
        self.0@
    }
}

impl InstantSettlementId {
    /// The prefix of this id type.
    pub fn prefix() -> (r: &'static str)
        ensures
            r@ == "setlod_"@,
    {
        "setlod_"
    }

    /// The whole id as text.
    pub fn as_str(&self) -> (r: &str)
        ensures
            r@ == self@,
    {
        self.0.as_str()
    }

    /// Accepts exactly the strings that start with `setlod_`.
    pub fn parse(s: &str) -> (r: Result<InstantSettlementId, ParseIdError>)
        ensures
            r matches Ok(id) ==> id@ == s@ && spec_is_prefix("setlod_"@, s@),
            r is Err <==> !spec_is_prefix("setlod_"@, s@),
    {
        if crate::strutil::str_has_prefix(s, "setlod_") {
            Ok(InstantSettlementId(s.to_owned()))
        } else {
            Err(ParseIdError { typename: "InstantSettlementId", expected: "setlod_" })
        }
    }
}

/// An id for the corresponding entity type; always starts with
/// `setlodp_`.
#[derive(Clone, Debug, PartialEq, Eq)]
pub struct InstantSettlementPayoutId(String);

impl View for InstantSettlementPayoutId {
    type V = Seq<char>;

    closed spec fn view(&self) -> Seq<char> {
        self.0@
    }
}

impl InstantSettlementPayoutId {
    /// The prefix of this id type.
    pub fn prefix() -> (r: &'static str)
        ensures
            r@ == "setlodp_"@,
    {
        "setlodp_"
    }

    /// The whole id as text.
    pub fn as_str(&self) -> (r: &str)
        ensures
            r@ == self@,
    {
        self.0.as_str()
    }

    /// Accepts exactly the strings that start with `setlodp_`.
    pub fn parse(s: &str) -> (r: Result<InstantSettlementPayoutId, ParseIdError>)
        ensures
            r matches Ok(id) ==> id@ == s@ && spec_is_prefix("setlodp_"@, s@),
            r is Err <==> !spec_is_prefix("setlodp_"@, s@),
    {
        if crate::strutil::str_has_prefix(s, "setlodp_") {
            Ok(InstantSettlementPayoutId(s.to_owned()))
        } else {
            Err(ParseIdError { typename: "InstantSettlementPayoutId", expected: "setlodp_" })
        }
    }
}

} // verus!
