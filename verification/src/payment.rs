//! Payment entities, downtime records and their parameter records.

use vstd::prelude::*;

use crate::api::RequestParams;
use crate::json::{JVal, JsonValue};
use crate::ids::RefundId;

use crate::card::Card;
use crate::card::CardType;
use crate::common::Collection;
use crate::common::Currency;
use crate::common::Filter;
use crate::common::Object;
use crate::common::Timestamp;
use crate::ids::CardId;
use crate::ids::DowntimeId;
use crate::ids::OrderId;
use crate::ids::PaymentId;
use crate::offer::Offer;

verus! {

#[derive(Clone, Debug, PartialEq, Eq)]
pub enum PaymentStatus {
    Created,
    Authorized,
    Captured,
    Refunded,
    Failed,
}

#[derive(Clone, Debug, PartialEq, Eq)]
pub enum PaymentMethod {
    Card,
    NetBanking,
    Wallet,
    Emi,
    Upi,
}

#[derive(Clone, Debug, PartialEq, Eq)]
pub enum PaymentRefundStatus {
    Partial,
    Full,
}

#[derive(Clone, Debug, PartialEq, Eq)]
pub struct PaymentAcquirerData {
    pub rrn: String,
    pub authentication_reference_number: Option<String>,
    pub bank_transaction_id: Option<String>,
    pub auth_code: Option<String>,
}

#[derive(Clone, Debug, PartialEq, Eq)]
pub enum PaymentAccountType {
    BankAccount,
    CreditCard,
    Wallet,
}

#[derive(Clone, Debug, PartialEq, Eq)]
pub enum PaymentUpiFlow {
    InApp,
}

#[derive(Clone, Debug, PartialEq, Eq)]
pub struct PaymentUpiInfo {
    pub payer_account_type: PaymentAccountType,
    pub vpa: String,
    pub flow: Option<PaymentUpiFlow>,
}

#[derive(Clone, Debug, PartialEq, Eq)]
pub struct PaymentEmiInfo {
    pub issuer: String,
    pub rate: u16,
    pub duration: u64,
}

#[derive(Clone, Debug, PartialEq, Eq)]
pub struct Payment {
    pub id: PaymentId,
    pub amount: u64,
    pub currency: Currency,
    pub status: PaymentStatus,
    pub method: PaymentMethod,
    pub order_id: OrderId,
    pub description: Option<String>,
    pub international: bool,
    pub refund_status: Option<PaymentRefundStatus>,
    pub amount_refunded: u64,
    pub captured: bool,
    pub email: String,
    pub contact: Option<String>,
    pub fee: u64,
    pub tax: u64,
    pub notes: Object,
    pub created_at: Timestamp,
    pub card_id: Option<CardId>,
    pub card: Option<Card>,
    pub wallet: Option<String>,
    pub acquirer_data: Option<PaymentAcquirerData>,
    pub bank: Option<String>,
    pub upi: Option<PaymentUpiInfo>,
    pub vpa: Option<String>,
    pub emi: Option<PaymentEmiInfo>,
    pub offers: Option<Collection<Offer>>,
    pub error_code: Option<String>,
    pub error_description: Option<String>,
    pub error_source: Option<String>,
    pub error_reason: Option<String>,
}

#[derive(Clone, Debug, PartialEq, Eq)]
pub struct CapturePayment {
    pub amount: u64,
    pub currency: Currency,
}

#[derive(Clone, Debug, PartialEq, Eq)]
pub enum PaymentExpand {
    Card,
    Emi,
    Offers,
    Upi,
}

#[derive(Clone, Debug, PartialEq, Eq)]
pub enum ListPaymentsExpand {
    Card,
    Emi,
}

#[derive(Clone, Debug, PartialEq, Eq, Default)]
pub struct ListPayments<'a> {
    pub expand: &'a [ListPaymentsExpand],
    pub filter: Option<Filter>,
}

#[derive(Clone, Debug, PartialEq, Eq)]
pub enum DowntimeMethod {
    Card,
    Upi,
    Netbanking,
}

#[derive(Clone, Debug, PartialEq, Eq)]
pub enum DowntimeStatus {
    Scheduled,
    Started,
    Resolved,
    Cancelled,
}

#[derive(Clone, Debug, PartialEq, Eq)]
pub enum DowntimeSeverity {
    High,
    Medium,
    Low,
}

#[derive(Clone, Debug, PartialEq, Eq)]
pub enum DowntimeInstrumentBank {
    HDFC,
    ICIC,
    SBIN,
    KKBK,
    UTIB,
    PUNB,
}

#[derive(Clone, Debug, PartialEq, Eq)]
pub enum DowntimeInstrumentNetwork {
    AMEX,
    DICL,
    MC,
    RUPAY,
    VISA,
    ALL,
}

#[derive(Clone, Debug, PartialEq, Eq)]
pub enum DowntimeInstrumentIssuer {
    SBIN,
    HDFC,
    ICIC,
    UTIB,
    CITI,
    PUNB,
    KKBK,
    CNRB,
    BKID,
    BARB,
    JAKA,
    UBIN,
}

#[derive(Clone, Debug, PartialEq, Eq)]
pub enum DowntimeInstrumentPsp {
    GooglePay,
    Phonepe,
    Paytm,
    Bhim,
}

#[derive(Clone, Debug, PartialEq, Eq)]
pub struct DowntimeInstruments {
    pub bank: Option<DowntimeInstrumentBank>,
    pub network: Option<DowntimeInstrumentNetwork>,
    pub issuer: Option<DowntimeInstrumentIssuer>,
    pub psp: Option<DowntimeInstrumentPsp>,
    pub vpa_handle: Option<String>,
    pub card_type: Option<CardType>,
}

#[derive(Clone, Debug, PartialEq, Eq)]
pub enum DowntimeFlow {
    Collect,
    Intent,
    InApp,
}

#[derive(Clone, Debug, PartialEq, Eq)]
pub struct Downtime {
    pub id: DowntimeId,
    pub method: DowntimeMethod,
    pub begin: Timestamp,
    pub end: Option<Timestamp>,
    pub status: DowntimeStatus,
    pub scheduled: bool,
    pub severity: DowntimeSeverity,
    pub instrument: DowntimeInstruments,
    pub created_at: Timestamp,
    pub updated_at: Option<Timestamp>,
    pub flow: DowntimeFlow,
}


/// The wire name of a payment expansion.
pub open spec fn payment_expand_code(e: PaymentExpand) -> Seq<char> {
    match e {
        PaymentExpand::Card => "card"@,
        PaymentExpand::Emi => "emi"@,
        PaymentExpand::Offers => "offers"@,
        PaymentExpand::Upi => "upi"@,
    }
}

impl PaymentExpand {
    /// The wire name of this expansion.
    pub fn as_str(&self) -> (r: &'static str)
        ensures
            r@ == payment_expand_code(*self),
    {
        match self {
            PaymentExpand::Card => "card",
            PaymentExpand::Emi => "emi",
            PaymentExpand::Offers => "offers",
            PaymentExpand::Upi => "upi",
        }
    }
}

/// The wire form of a payment expansion list.
pub open spec fn payment_expand_jarr(es: Seq<PaymentExpand>) -> Seq<JVal> {
    Seq::new(
        es.len(),
        |i: int|
            if 0 <= i < es.len() {
                JVal::Str(payment_expand_code(es[i]))
            } else {
                JVal::Null
            },
    )
}

/// The wire name of a listing expansion.
pub open spec fn list_payments_expand_code(e: ListPaymentsExpand) -> Seq<char> {
    match e {
        ListPaymentsExpand::Card => "card"@,
        ListPaymentsExpand::Emi => "emi"@,
    }
}

impl ListPaymentsExpand {
    /// The wire name of this expansion.
    pub fn as_str(&self) -> (r: &'static str)
        ensures
            r@ == list_payments_expand_code(*self),
    {
        match self {
            ListPaymentsExpand::Card => "card",
            ListPaymentsExpand::Emi => "emi",
        }
    }
}

/// The wire form of a listing-expansion list.
pub open spec fn payment_expand_list_jarr(es: Seq<ListPaymentsExpand>) -> Seq<JVal> {
    Seq::new(
        es.len(),
        |i: int|
            if 0 <= i < es.len() {
                JVal::Str(list_payments_expand_code(es[i]))
            } else {
                JVal::Null
            },
    )
}

/// The members a payment listing serializes to, the expansions first and the filter flattened after.
pub open spec fn list_payments_members(c: ListPayments) -> Seq<(Seq<char>, JVal)> {
    seq![("expand[]"@, JVal::Arr(payment_expand_list_jarr(c.expand@)))] + (match c.filter {
        Some(f) => crate::common::filter_members(f),
        None => Seq::empty(),
    })
}

impl<'a> ListPayments<'a> {
    /// Serializes these parameters as their JSON body.
    pub fn to_json(&self) -> (r: JsonValue)
        ensures
            r@ == JVal::Obj(list_payments_members(*self)),
    {
        let mut members: Vec<(String, JsonValue)> = Vec::new();
        let mut items: Vec<JsonValue> = Vec::new();
        let n = self.expand.len();
        let mut i: usize = 0;
        while i < n
            invariant
                n == self.expand@.len(),
                i <= n,
                items@.len() == i,
                forall|k: int| 0 <= k < i ==> #[trigger] items@[k]@ == JVal::Str(
                    list_payments_expand_code(self.expand@[k]),
                ),
            decreases n - i,
        {
            let e = vstd::slice::slice_index_get(self.expand, i);
            items.push(JsonValue::Str(String::from_str(e.as_str())));
            i = i + 1;
            assert(items@[i - 1]@ == JVal::Str(list_payments_expand_code(self.expand@[i - 1])));
        }
        proof {
            assert forall|k: int| 0 <= k < n implies crate::json::views_of(items@)[k]
                == payment_expand_list_jarr(self.expand@)[k] by {
                assert(items@[k]@ == JVal::Str(list_payments_expand_code(self.expand@[k])));
            }
            assert(crate::json::views_of(items@) =~= payment_expand_list_jarr(self.expand@));
        }
        members.push((String::from_str("expand[]"), JsonValue::Arr(items)));
        if let Some(f) = &self.filter {
            if let Some(t) = f.from {
                members.push(
                    (String::from_str("from"), JsonValue::Num(crate::num::i64_to_string(t))),
                );
            }
            if let Some(t) = f.to {
                members.push(
                    (String::from_str("to"), JsonValue::Num(crate::num::i64_to_string(t))),
                );
            }
            if let Some(n) = f.count {
                members.push(
                    (
                        String::from_str("count"),
                        JsonValue::Num(crate::num::u64_to_string(n as u64)),
                    ),
                );
            }
            if let Some(n) = f.skip {
                members.push(
                    (
                        String::from_str("skip"),
                        JsonValue::Num(crate::num::u64_to_string(n as u64)),
                    ),
                );
            }
        }
        let ghost cm = list_payments_members(*self);
        proof {
            let mv = crate::json::member_views_of(members@);
            assert(mv.len() == cm.len());
            assert forall|k: int| 0 <= k < mv.len() implies mv[k] == cm[k] by {
                assert(mv[k] == (members@[k].0@, members@[k].1.jval()));
            }
            assert(mv =~= cm);
        }
        JsonValue::Obj(members)
    }
}

/// The members payment capture serializes to.
pub open spec fn capture_payment_members(c: CapturePayment) -> Seq<(Seq<char>, JVal)> {
    seq![
        ("amount"@, JVal::Num(crate::num::dec_str(c.amount as int))),
        ("currency"@, JVal::Str(crate::common::currency_code(c.currency))),
    ]
}

impl CapturePayment {
    /// Serializes the capture parameters as their JSON body.
    pub fn to_json(&self) -> (r: JsonValue)
        ensures
            r@ == JVal::Obj(capture_payment_members(*self)),
    {
        let mut members: Vec<(String, JsonValue)> = Vec::new();
        members.push(
            (String::from_str("amount"), JsonValue::Num(crate::num::u64_to_string(self.amount))),
        );
        members.push(
            (
                String::from_str("currency"),
                JsonValue::Str(String::from_str(self.currency.as_str())),
            ),
        );
        proof {
            assert(crate::json::member_views_of(members@) =~= capture_payment_members(*self));
        }
        JsonValue::Obj(members)
    }
}

impl Payment {
    /// The request a capture sends: a POST to
    /// `/payments/{id}/capture` carrying amount and currency.
    pub fn capture_request(payment_id: &PaymentId, params: &CapturePayment) -> (r: RequestParams)
        ensures
            r.url@ == "/payments/"@ + payment_id@ + "/capture"@,
            r.version is None,
            r.data matches Some(d) && d@ == JVal::Obj(capture_payment_members(*params)),
    {
        let mut url = String::from_str("/payments/");
        url.append(payment_id.as_str());
        url.append("/capture");
        RequestParams { url, version: None, data: Some(params.to_json()) }
    }

    /// The request a payment fetch sends: a GET of `/payments/{id}`
    /// with the requested expansions under `expand[]`.
    pub fn fetch_request(payment_id: &PaymentId, expand: &[PaymentExpand]) -> (r: RequestParams)
        ensures
            r.url@ == "/payments/"@ + payment_id@,
            r.version is None,
            r.data matches Some(d) && d@ == JVal::Obj(
                seq![("expand[]"@, JVal::Arr(payment_expand_jarr(expand@)))],
            ),
    {
        let mut url = String::from_str("/payments/");
        url.append(payment_id.as_str());
        let mut items: Vec<JsonValue> = Vec::new();
        let n = expand.len();
        let mut i: usize = 0;
        while i < n
            invariant
                n == expand@.len(),
                i <= n,
                items@.len() == i,
                forall|k: int| 0 <= k < i ==> #[trigger] items@[k]@ == JVal::Str(
                    payment_expand_code(expand@[k]),
                ),
            decreases n - i,
        {
            let e = vstd::slice::slice_index_get(expand, i);
            items.push(JsonValue::Str(String::from_str(e.as_str())));
            i = i + 1;
            assert(items@[i - 1]@ == JVal::Str(payment_expand_code(expand@[i - 1])));
        }
        proof {
            assert forall|k: int| 0 <= k < n implies crate::json::views_of(items@)[k]
                == payment_expand_jarr(expand@)[k] by {
                assert(items@[k]@ == JVal::Str(payment_expand_code(expand@[k])));
            }
            assert(crate::json::views_of(items@) =~= payment_expand_jarr(expand@));
        }
        let mut members: Vec<(String, JsonValue)> = Vec::new();
        members.push((String::from_str("expand[]"), JsonValue::Arr(items)));
        let d = JsonValue::Obj(members);
        proof {
            assert(members@[0].1@ == JVal::Arr(payment_expand_jarr(expand@)));
            assert(d@->Obj_0 =~= seq![("expand[]"@, JVal::Arr(payment_expand_jarr(expand@)))]);
        }
        RequestParams { url, version: None, data: Some(d) }
    }

    /// The request a payment update sends: a PATCH of
    /// `/payments/{id}` carrying the new notes under a `notes` member.
    pub fn update_request(payment_id: &PaymentId, notes: &Object) -> (r: RequestParams)
        ensures
            r.url@ == "/payments/"@ + payment_id@,
            r.version is None,
            r.data matches Some(d) && d@ == JVal::Obj(
                seq![("notes"@, JVal::Obj(crate::common::object_members(notes@)))],
            ),
    {
        let mut url = String::from_str("/payments/");
        url.append(payment_id.as_str());
        let mut members: Vec<(String, JsonValue)> = Vec::new();
        members.push((String::from_str("notes"), crate::common::object_to_json(notes)));
        let d = JsonValue::Obj(members);
        proof {
            assert(d@->Obj_0 =~= seq![
                ("notes"@, JVal::Obj(crate::common::object_members(notes@))),
            ]);
        }
        RequestParams { url, version: None, data: Some(d) }
    }

    /// The request a refund of a payment sends: a POST to
    /// `/payments/{id}/refund` carrying the refund parameters.
    pub fn refund_request(payment_id: &PaymentId, params: &crate::refund::CreateRefund<'_>) -> (r:
        RequestParams)
        ensures
            r.url@ == "/payments/"@ + payment_id@ + "/refund"@,
            r.version is None,
            r.data matches Some(d) && d@ == JVal::Obj(
                crate::refund::create_refund_members(*params),
            ),
    {
        let mut url = String::from_str("/payments/");
        url.append(payment_id.as_str());
        url.append("/refund");
        RequestParams { url, version: None, data: Some(params.to_json()) }
    }

    /// The request a refund listing for a payment sends: a GET of
    /// `/payments/{id}/refunds` with the filter as query payload.
    pub fn list_refunds_request(payment_id: &PaymentId, filter: Option<&Filter>) -> (r:
        RequestParams)
        ensures
            r.url@ == "/payments/"@ + payment_id@ + "/refunds"@,
            r.version is None,
            match filter {
                Some(f) => r.data matches Some(d) && d@ == JVal::Obj(
                    crate::common::filter_members(*f),
                ),
                None => r.data is None,
            },
    {
        let mut url = String::from_str("/payments/");
        url.append(payment_id.as_str());
        url.append("/refunds");
        RequestParams {
            url,
            version: None,
            data: match filter {
                Some(f) => Some(f.to_json()),
                None => None,
            },
        }
    }

    /// The request a single-refund fetch sends: a GET of
    /// `/payments/{id}/refunds/{refund_id}`.
    pub fn fetch_refund_request(payment_id: &PaymentId, refund_id: &RefundId) -> (r: RequestParams)
        ensures
            r.url@ == "/payments/"@ + payment_id@ + "/refunds/"@ + refund_id@,
            r.version is None,
            r.data is None,
    {
        let mut url = String::from_str("/payments/");
        url.append(payment_id.as_str());
        url.append("/refunds/");
        url.append(refund_id.as_str());
        RequestParams { url, version: None, data: None }
    }

    /// The request a card fetch for a payment sends: a GET of
    /// `/payments/{id}/card`.
    pub fn fetch_card_request(payment_id: &PaymentId) -> (r: RequestParams)
        ensures
            r.url@ == "/payments/"@ + payment_id@ + "/card"@,
            r.version is None,
            r.data is None,
    {
        let mut url = String::from_str("/payments/");
        url.append(payment_id.as_str());
        url.append("/card");
        RequestParams { url, version: None, data: None }
    }

    /// The request a payment listing sends: a GET of `/payments` with
    /// the listing parameters as query payload.
    pub fn list_request(params: Option<&ListPayments<'_>>) -> (r: RequestParams)
        ensures
            r.url@ == "/payments"@,
            r.version is None,
            match params {
                Some(p) => r.data matches Some(d) && d@ == JVal::Obj(list_payments_members(*p)),
                None => r.data is None,
            },
    {
        RequestParams {
            url: String::from_str("/payments"),
            version: None,
            data: match params {
                Some(p) => Some(p.to_json()),
                None => None,
            },
        }
    }
}


impl Downtime {
    /// The request a downtime listing sends: a GET of
    /// `/payments/downtimes`.
    pub fn list_request() -> (r: RequestParams)
        ensures
            r.url@ == "/payments/downtimes"@,
            r.version is None,
            r.data is None,
    {
        RequestParams { url: String::from_str("/payments/downtimes"), version: None, data: None }
    }

    /// The request a downtime fetch sends: a GET of
    /// `/payments/downtimes/{id}`.
    pub fn fetch_request(downtime_id: &DowntimeId) -> (r: RequestParams)
        ensures
            r.url@ == "/payments/downtimes/"@ + downtime_id@,
            r.version is None,
            r.data is None,
    {
        let mut url = String::from_str("/payments/downtimes/");
        url.append(downtime_id.as_str());
        RequestParams { url, version: None, data: None }
    }
}


/// The payment state a wire name denotes, if any.
pub open spec fn spec_payment_status_from(s: Seq<char>) -> Option<PaymentStatus> {
    if s == "created"@ {
        Some(PaymentStatus::Created)
    } else if s == "authorized"@ {
        Some(PaymentStatus::Authorized)
    } else if s == "captured"@ {
        Some(PaymentStatus::Captured)
    } else if s == "refunded"@ {
        Some(PaymentStatus::Refunded)
    } else if s == "failed"@ {
        Some(PaymentStatus::Failed)
    } else {
        None
    }
}

impl PaymentStatus {
    /// Accepts exactly the wire names of the payment states.
    pub fn parse(s: &str) -> (r: Option<PaymentStatus>)
        ensures
            r == spec_payment_status_from(s@),
    {
        if crate::strutil::str_eq(s, "created") {
            Some(PaymentStatus::Created)
        } else if crate::strutil::str_eq(s, "authorized") {
            Some(PaymentStatus::Authorized)
        } else if crate::strutil::str_eq(s, "captured") {
            Some(PaymentStatus::Captured)
        } else if crate::strutil::str_eq(s, "refunded") {
            Some(PaymentStatus::Refunded)
        } else if crate::strutil::str_eq(s, "failed") {
            Some(PaymentStatus::Failed)
        } else {
            None
        }
    }
}

/// The payment method a wire name denotes, if any.
pub open spec fn spec_payment_method_from(s: Seq<char>) -> Option<PaymentMethod> {
    if s == "card"@ {
        Some(PaymentMethod::Card)
    } else if s == "netbanking"@ {
        Some(PaymentMethod::NetBanking)
    } else if s == "wallet"@ {
        Some(PaymentMethod::Wallet)
    } else if s == "emi"@ {
        Some(PaymentMethod::Emi)
    } else if s == "upi"@ {
        Some(PaymentMethod::Upi)
    } else {
        None
    }
}

impl PaymentMethod {
    /// Accepts exactly the wire names of the payment methods.
    pub fn parse(s: &str) -> (r: Option<PaymentMethod>)
        ensures
            r == spec_payment_method_from(s@),
    {
        if crate::strutil::str_eq(s, "card") {
            Some(PaymentMethod::Card)
        } else if crate::strutil::str_eq(s, "netbanking") {
            Some(PaymentMethod::NetBanking)
        } else if crate::strutil::str_eq(s, "wallet") {
            Some(PaymentMethod::Wallet)
        } else if crate::strutil::str_eq(s, "emi") {
            Some(PaymentMethod::Emi)
        } else if crate::strutil::str_eq(s, "upi") {
            Some(PaymentMethod::Upi)
        } else {
            None
        }
    }
}

/// The refund progress a wire name denotes, if any.
pub open spec fn spec_refund_progress_from(s: Seq<char>) -> Option<PaymentRefundStatus> {
    if s == "partial"@ {
        Some(PaymentRefundStatus::Partial)
    } else if s == "full"@ {
        Some(PaymentRefundStatus::Full)
    } else {
        None
    }
}

impl PaymentRefundStatus {
    /// Accepts exactly the wire names of the refund progress states.
    pub fn parse(s: &str) -> (r: Option<PaymentRefundStatus>)
        ensures
            r == spec_refund_progress_from(s@),
    {
        if crate::strutil::str_eq(s, "partial") {
            Some(PaymentRefundStatus::Partial)
        } else if crate::strutil::str_eq(s, "full") {
            Some(PaymentRefundStatus::Full)
        } else {
            None
        }
    }
}

/// The payer account kind a wire name denotes, if any.
pub open spec fn spec_account_type_from(s: Seq<char>) -> Option<PaymentAccountType> {
    if s == "bankaccount"@ {
        Some(PaymentAccountType::BankAccount)
    } else if s == "creditcard"@ {
        Some(PaymentAccountType::CreditCard)
    } else if s == "wallet"@ {
        Some(PaymentAccountType::Wallet)
    } else {
        None
    }
}

impl PaymentAccountType {
    /// Accepts exactly the wire names of the payer account kinds.
    pub fn parse(s: &str) -> (r: Option<PaymentAccountType>)
        ensures
            r == spec_account_type_from(s@),
    {
        if crate::strutil::str_eq(s, "bankaccount") {
            Some(PaymentAccountType::BankAccount)
        } else if crate::strutil::str_eq(s, "creditcard") {
            Some(PaymentAccountType::CreditCard)
        } else if crate::strutil::str_eq(s, "wallet") {
            Some(PaymentAccountType::Wallet)
        } else {
            None
        }
    }
}

/// The UPI flow a wire name denotes, if any.
pub open spec fn spec_upi_flow_from(s: Seq<char>) -> Option<PaymentUpiFlow> {
    if s == "in_app"@ {
        Some(PaymentUpiFlow::InApp)
    } else {
        None
    }
}

impl PaymentUpiFlow {
    /// Accepts exactly the wire name of the UPI flow.
    pub fn parse(s: &str) -> (r: Option<PaymentUpiFlow>)
        ensures
            r == spec_upi_flow_from(s@),
    {
        if crate::strutil::str_eq(s, "in_app") {
            Some(PaymentUpiFlow::InApp)
        } else {
            None
        }
    }
}

/// The mathematical content of a [`PaymentAcquirerData`].
pub ghost struct AcquirerDataModel {
    pub rrn: Seq<char>,
    pub authentication_reference_number: Option<Seq<char>>,
    pub bank_transaction_id: Option<Seq<char>>,
    pub auth_code: Option<Seq<char>>,
}

impl PaymentAcquirerData {
    pub open spec fn model(self) -> AcquirerDataModel {
        AcquirerDataModel {
            rrn: self.rrn@,
            authentication_reference_number: crate::error::opt_view(
                self.authentication_reference_number,
            ),
            bank_transaction_id: crate::error::opt_view(self.bank_transaction_id),
            auth_code: crate::error::opt_view(self.auth_code),
        }
    }
}

/// What an acquirer record decodes to: a retrieval reference and
/// optional bank references.
pub open spec fn sp_acquirer(v: JVal) -> Option<AcquirerDataModel> {
    match v {
        JVal::Obj(m) => match (crate::decode::sp_req_str(crate::json::obj_get(m, "rrn"@)),
        crate::error::sp_opt_str(
            crate::json::obj_get(m, "authentication_reference_number"@),
        ), crate::error::sp_opt_str(crate::json::obj_get(m, "bank_transaction_id"@)),
        crate::error::sp_opt_str(crate::json::obj_get(m, "auth_code"@))) {
            (Some(rrn), Some(arn), Some(btid), Some(auth_code)) => Some(
                AcquirerDataModel {
                    rrn,
                    authentication_reference_number: arn,
                    bank_transaction_id: btid,
                    auth_code,
                },
            ),
            _ => None,
        },
        _ => None,
    }
}

impl PaymentAcquirerData {
    /// Decodes an acquirer record; `None` exactly where the body does
    /// not have its shape.
    pub fn from_json(v: &JsonValue) -> (r: Option<PaymentAcquirerData>)
        ensures
            match (r, sp_acquirer(v@)) {
                (Some(a), Some(m)) => a.model() == m,
                (None, None) => true,
                _ => false,
            },
    {
        if !(v matches JsonValue::Obj(_)) {
            return None;
        }
        let rrn = match crate::decode::req_str(v.get_member("rrn")) {
            Some(s) => s,
            None => { return None },
        };
        let arn = match crate::error::opt_str_member(v, "authentication_reference_number") {
            Some(o) => o,
            None => { return None },
        };
        let btid = match crate::error::opt_str_member(v, "bank_transaction_id") {
            Some(o) => o,
            None => { return None },
        };
        let auth_code = match crate::error::opt_str_member(v, "auth_code") {
            Some(o) => o,
            None => { return None },
        };
        Some(
            PaymentAcquirerData {
                rrn,
                authentication_reference_number: arn,
                bank_transaction_id: btid,
                auth_code,
            },
        )
    }
}

/// The mathematical content of a [`PaymentUpiInfo`].
pub ghost struct UpiInfoModel {
    pub payer_account_type: PaymentAccountType,
    pub vpa: Seq<char>,
    pub flow: Option<PaymentUpiFlow>,
}

impl PaymentUpiInfo {
    pub open spec fn model(self) -> UpiInfoModel {
        UpiInfoModel {
            payer_account_type: self.payer_account_type,
            vpa: self.vpa@,
            flow: self.flow,
        }
    }
}

/// What a UPI record decodes to: payer kind, address and optional
/// flow.
pub open spec fn sp_upi(v: JVal) -> Option<UpiInfoModel> {
    match v {
        JVal::Obj(m) => match ((
        match crate::decode::sp_req_str(crate::json::obj_get(m, "payer_account_type"@)) {
            Some(s) => spec_account_type_from(s),
            None => None,
        }), crate::decode::sp_req_str(crate::json::obj_get(m, "vpa"@)), (
        match crate::error::sp_opt_str(crate::json::obj_get(m, "flow"@)) {
            Some(None) => Some(None),
            Some(Some(s)) => match spec_upi_flow_from(s) {
                Some(f) => Some(Some(f)),
                None => None,
            },
            None => None,
        })) {
            (Some(payer_account_type), Some(vpa), Some(flow)) => Some(
                UpiInfoModel { payer_account_type, vpa, flow },
            ),
            _ => None,
        },
        _ => None,
    }
}

impl PaymentUpiInfo {
    /// Decodes a UPI record; `None` exactly where the body does not
    /// have its shape.
    pub fn from_json(v: &JsonValue) -> (r: Option<PaymentUpiInfo>)
        ensures
            match (r, sp_upi(v@)) {
                (Some(u), Some(m)) => u.model() == m,
                (None, None) => true,
                _ => false,
            },
    {
        if !(v matches JsonValue::Obj(_)) {
            return None;
        }
        let payer_account_type = match crate::decode::req_str(v.get_member("payer_account_type")) {
            Some(s) => match PaymentAccountType::parse(s.as_str()) {
                Some(t) => t,
                None => { return None },
            },
            None => { return None },
        };
        let vpa = match crate::decode::req_str(v.get_member("vpa")) {
            Some(s) => s,
            None => { return None },
        };
        let flow = match crate::error::opt_str_member(v, "flow") {
            Some(Some(s)) => match PaymentUpiFlow::parse(s.as_str()) {
                Some(f) => Some(f),
                None => { return None },
            },
            Some(None) => None,
            None => { return None },
        };
        Some(PaymentUpiInfo { payer_account_type, vpa, flow })
    }
}

/// The mathematical content of a [`PaymentEmiInfo`].
pub ghost struct EmiInfoModel {
    pub issuer: Seq<char>,
    pub rate: u16,
    pub duration: u64,
}

impl PaymentEmiInfo {
    pub open spec fn model(self) -> EmiInfoModel {
        EmiInfoModel { issuer: self.issuer@, rate: self.rate, duration: self.duration }
    }
}

/// What an EMI record decodes to: issuer, rate and duration.
pub open spec fn sp_emi(v: JVal) -> Option<EmiInfoModel> {
    match v {
        JVal::Obj(m) => match (crate::decode::sp_req_str(crate::json::obj_get(m, "issuer"@)),
        crate::decode::sp_req_u16(crate::json::obj_get(m, "rate"@)), crate::decode::sp_req_u64(
            crate::json::obj_get(m, "duration"@),
        )) {
            (Some(issuer), Some(rate), Some(duration)) => Some(
                EmiInfoModel { issuer, rate, duration },
            ),
            _ => None,
        },
        _ => None,
    }
}

impl PaymentEmiInfo {
    /// Decodes an EMI record; `None` exactly where the body does not
    /// have its shape.
    pub fn from_json(v: &JsonValue) -> (r: Option<PaymentEmiInfo>)
        ensures
            match (r, sp_emi(v@)) {
                (Some(e), Some(m)) => e.model() == m,
                (None, None) => true,
                _ => false,
            },
    {
        if !(v matches JsonValue::Obj(_)) {
            return None;
        }
        let issuer = match crate::decode::req_str(v.get_member("issuer")) {
            Some(s) => s,
            None => { return None },
        };
        let rate = match crate::decode::req_u16(v.get_member("rate")) {
            Some(n) => n,
            None => { return None },
        };
        let duration = match crate::decode::req_u64(v.get_member("duration")) {
            Some(n) => n,
            None => { return None },
        };
        Some(PaymentEmiInfo { issuer, rate, duration })
    }
}


/// The mathematical content of a [`Payment`].
pub ghost struct PaymentModel {
    pub id: Seq<char>,
    pub amount: u64,
    pub currency: crate::common::Currency,
    pub status: PaymentStatus,
    pub method: PaymentMethod,
    pub order_id: Seq<char>,
    pub description: Option<Seq<char>>,
    pub international: bool,
    pub refund_status: Option<PaymentRefundStatus>,
    pub amount_refunded: u64,
    pub captured: bool,
    pub email: Seq<char>,
    pub contact: Option<Seq<char>>,
    pub fee: u64,
    pub tax: u64,
    pub notes: Seq<(Seq<char>, Seq<char>)>,
    pub created_at: int,
    pub card_id: Option<Seq<char>>,
    pub card: Option<crate::card::CardModel>,
    pub wallet: Option<Seq<char>>,
    pub acquirer_data: Option<AcquirerDataModel>,
    pub bank: Option<Seq<char>>,
    pub upi: Option<UpiInfoModel>,
    pub vpa: Option<Seq<char>>,
    pub emi: Option<EmiInfoModel>,
    pub offers: Option<(int, Seq<crate::offer::OfferModel>)>,
    pub error_code: Option<Seq<char>>,
    pub error_description: Option<Seq<char>>,
    pub error_source: Option<Seq<char>>,
    pub error_reason: Option<Seq<char>>,
}

impl Payment {
    pub open spec fn model(self) -> PaymentModel {
        PaymentModel {
            id: self.id@,
            amount: self.amount,
            currency: self.currency,
            status: self.status,
            method: self.method,
            order_id: self.order_id@,
            description: crate::error::opt_view(self.description),
            international: self.international,
            refund_status: self.refund_status,
            amount_refunded: self.amount_refunded,
            captured: self.captured,
            email: self.email@,
            contact: crate::error::opt_view(self.contact),
            fee: self.fee,
            tax: self.tax,
            notes: crate::common::object_views(self.notes@),
            created_at: self.created_at as int,
            card_id: match self.card_id {
                Some(c) => Some(c@),
                None => None,
            },
            card: match self.card {
                Some(c) => Some(c.model()),
                None => None,
            },
            wallet: crate::error::opt_view(self.wallet),
            acquirer_data: match self.acquirer_data {
                Some(a) => Some(a.model()),
                None => None,
            },
            bank: crate::error::opt_view(self.bank),
            upi: match self.upi {
                Some(u) => Some(u.model()),
                None => None,
            },
            vpa: crate::error::opt_view(self.vpa),
            emi: match self.emi {
                Some(e) => Some(e.model()),
                None => None,
            },
            offers: match self.offers {
                Some(c) => Some((c.count as int, crate::offer::offer_views(c.items@))),
                None => None,
            },
            error_code: crate::error::opt_view(self.error_code),
            error_description: crate::error::opt_view(self.error_description),
            error_source: crate::error::opt_view(self.error_source),
            error_reason: crate::error::opt_view(self.error_reason),
        }
    }
}

/// An optional refund-progress member: absent or `null` count as
/// absent, a known wire name is kept, anything else is malformed.
pub open spec fn sp_opt_refund_status(v: Option<JVal>) -> Option<Option<PaymentRefundStatus>> {
    match crate::error::sp_opt_str(v) {
        Some(None) => Some(None),
        Some(Some(s)) => match spec_refund_progress_from(s) {
            Some(x) => Some(Some(x)),
            None => None,
        },
        None => None,
    }
}

/// An optional card member: absent or `null` count as absent; a
/// present one must decode as a card.
pub open spec fn sp_opt_card(v: Option<JVal>) -> Option<Option<crate::card::CardModel>> {
    match v {
        None => Some(None),
        Some(JVal::Null) => Some(None),
        Some(w) => match crate::card::sp_card(w) {
            Some(m) => Some(Some(m)),
            None => None,
        },
    }
}

/// An optional acquirer member, by the same convention.
pub open spec fn sp_opt_acquirer(v: Option<JVal>) -> Option<Option<AcquirerDataModel>> {
    match v {
        None => Some(None),
        Some(JVal::Null) => Some(None),
        Some(w) => match sp_acquirer(w) {
            Some(m) => Some(Some(m)),
            None => None,
        },
    }
}

/// An optional UPI member, by the same convention.
pub open spec fn sp_opt_upi(v: Option<JVal>) -> Option<Option<UpiInfoModel>> {
    match v {
        None => Some(None),
        Some(JVal::Null) => Some(None),
        Some(w) => match sp_upi(w) {
            Some(m) => Some(Some(m)),
            None => None,
        },
    }
}

/// An optional EMI member, by the same convention.
pub open spec fn sp_opt_emi(v: Option<JVal>) -> Option<Option<EmiInfoModel>> {
    match v {
        None => Some(None),
        Some(JVal::Null) => Some(None),
        Some(w) => match sp_emi(w) {
            Some(m) => Some(Some(m)),
            None => None,
        },
    }
}

/// An optional offers page, by the same convention.
pub open spec fn sp_opt_offers(v: Option<JVal>) -> Option<
    Option<(int, Seq<crate::offer::OfferModel>)>,
> {
    match v {
        None => Some(None),
        Some(JVal::Null) => Some(None),
        Some(w) => match crate::offer::sp_offer_collection(w) {
            Some(c) => Some(Some(c)),
            None => None,
        },
    }
}

/// The expandable and error tail of a payment body, decoded apart
/// from the required head.
pub(crate) struct PaymentExtras {
    pub(crate) card_id: Option<CardId>,
    pub(crate) card: Option<Card>,
    pub(crate) wallet: Option<String>,
    pub(crate) acquirer_data: Option<PaymentAcquirerData>,
    pub(crate) bank: Option<String>,
    pub(crate) upi: Option<PaymentUpiInfo>,
    pub(crate) vpa: Option<String>,
    pub(crate) emi: Option<PaymentEmiInfo>,
    pub(crate) offers: Option<Collection<Offer>>,
    pub(crate) error_code: Option<String>,
    pub(crate) error_description: Option<String>,
    pub(crate) error_source: Option<String>,
    pub(crate) error_reason: Option<String>,
}

/// The mathematical content of a [`PaymentExtras`].
pub ghost struct PaymentExtrasModel {
    pub card_id: Option<Seq<char>>,
    pub card: Option<crate::card::CardModel>,
    pub wallet: Option<Seq<char>>,
    pub acquirer_data: Option<AcquirerDataModel>,
    pub bank: Option<Seq<char>>,
    pub upi: Option<UpiInfoModel>,
    pub vpa: Option<Seq<char>>,
    pub emi: Option<EmiInfoModel>,
    pub offers: Option<(int, Seq<crate::offer::OfferModel>)>,
    pub error_code: Option<Seq<char>>,
    pub error_description: Option<Seq<char>>,
    pub error_source: Option<Seq<char>>,
    pub error_reason: Option<Seq<char>>,
}

impl PaymentExtras {
    pub(crate) open spec fn model(self) -> PaymentExtrasModel {
        PaymentExtrasModel {
            card_id: match self.card_id {
                Some(c) => Some(c@),
                None => None,
            },
            card: match self.card {
                Some(c) => Some(c.model()),
                None => None,
            },
            wallet: crate::error::opt_view(self.wallet),
            acquirer_data: match self.acquirer_data {
                Some(a) => Some(a.model()),
                None => None,
            },
            bank: crate::error::opt_view(self.bank),
            upi: match self.upi {
                Some(u) => Some(u.model()),
                None => None,
            },
            vpa: crate::error::opt_view(self.vpa),
            emi: match self.emi {
                Some(e) => Some(e.model()),
                None => None,
            },
            offers: match self.offers {
                Some(c) => Some((c.count as int, crate::offer::offer_views(c.items@))),
                None => None,
            },
            error_code: crate::error::opt_view(self.error_code),
            error_description: crate::error::opt_view(self.error_description),
            error_source: crate::error::opt_view(self.error_source),
            error_reason: crate::error::opt_view(self.error_reason),
        }
    }
}

/// What a payment body's tail decodes to: the expandable members and
/// the error context, each absent, `null`, or of its own shape; a
/// present card id must carry its prefix.
pub open spec fn sp_payment_extras(m: Seq<(Seq<char>, JVal)>) -> Option<PaymentExtrasModel> {
    let card_id = crate::error::sp_opt_str(crate::json::obj_get(m, "card_id"@));
    let card = sp_opt_card(crate::json::obj_get(m, "card"@));
    let wallet = crate::error::sp_opt_str(crate::json::obj_get(m, "wallet"@));
    let acquirer_data = sp_opt_acquirer(crate::json::obj_get(m, "acquirer_data"@));
    let bank = crate::error::sp_opt_str(crate::json::obj_get(m, "bank"@));
    let upi = sp_opt_upi(crate::json::obj_get(m, "upi"@));
    let vpa = crate::error::sp_opt_str(crate::json::obj_get(m, "vpa"@));
    let emi = sp_opt_emi(crate::json::obj_get(m, "emi"@));
    let offers = sp_opt_offers(crate::json::obj_get(m, "offers"@));
    let error_code = crate::error::sp_opt_str(crate::json::obj_get(m, "error_code"@));
    let error_description = crate::error::sp_opt_str(
        crate::json::obj_get(m, "error_description"@),
    );
    let error_source = crate::error::sp_opt_str(crate::json::obj_get(m, "error_source"@));
    let error_reason = crate::error::sp_opt_str(crate::json::obj_get(m, "error_reason"@));
    if {
        &&& card_id is Some
        &&& card is Some
        &&& wallet is Some
        &&& acquirer_data is Some
        &&& bank is Some
        &&& upi is Some
        &&& vpa is Some
        &&& emi is Some
        &&& offers is Some
        &&& error_code is Some
        &&& error_description is Some
        &&& error_source is Some
        &&& error_reason is Some
        &&& match card_id->Some_0 {
            Some(c) => crate::strutil::spec_is_prefix("card_"@, c),
            None => true,
        }
    } {
        Some(
            PaymentExtrasModel {
                card_id: card_id->Some_0,
                card: card->Some_0,
                wallet: wallet->Some_0,
                acquirer_data: acquirer_data->Some_0,
                bank: bank->Some_0,
                upi: upi->Some_0,
                vpa: vpa->Some_0,
                emi: emi->Some_0,
                offers: offers->Some_0,
                error_code: error_code->Some_0,
                error_description: error_description->Some_0,
                error_source: error_source->Some_0,
                error_reason: error_reason->Some_0,
            },
        )
    } else {
        None
    }
}

fn decode_payment_extras(v: &JsonValue) -> (r: Option<PaymentExtras>)
    requires
        v matches JsonValue::Obj(_),
    ensures
        match (r, sp_payment_extras(v@->Obj_0)) {
            (Some(e), Some(m)) => e.model() == m,
            (None, None) => true,
            _ => false,
        },
{
    let card_id = match crate::error::opt_str_member(v, "card_id") {
        Some(Some(s)) => match CardId::parse(s.as_str()) {
            Ok(c) => Some(c),
            Err(_) => { return None },
        },
        Some(None) => None,
        None => { return None },
    };
    let card = match v.get_member("card") {
        None => None,
        Some(JsonValue::Null) => None,
        Some(w) => match Card::from_json(w) {
            Some(c) => Some(c),
            None => { return None },
        },
    };
    let wallet = match crate::error::opt_str_member(v, "wallet") {
        Some(o) => o,
        None => { return None },
    };
    let acquirer_data = match v.get_member("acquirer_data") {
        None => None,
        Some(JsonValue::Null) => None,
        Some(w) => match PaymentAcquirerData::from_json(w) {
            Some(a) => Some(a),
            None => { return None },
        },
    };
    let bank = match crate::error::opt_str_member(v, "bank") {
        Some(o) => o,
        None => { return None },
    };
    let upi = match v.get_member("upi") {
        None => None,
        Some(JsonValue::Null) => None,
        Some(w) => match PaymentUpiInfo::from_json(w) {
            Some(u) => Some(u),
            None => { return None },
        },
    };
    let vpa = match crate::error::opt_str_member(v, "vpa") {
        Some(o) => o,
        None => { return None },
    };
    let emi = match v.get_member("emi") {
        None => None,
        Some(JsonValue::Null) => None,
        Some(w) => match PaymentEmiInfo::from_json(w) {
            Some(e) => Some(e),
            None => { return None },
        },
    };
    let offers = match v.get_member("offers") {
        None => None,
        Some(JsonValue::Null) => None,
        Some(w) => match crate::offer::Offer::collection_from_json(w) {
            Some(c) => Some(c),
            None => { return None },
        },
    };
    let error_code = match crate::error::opt_str_member(v, "error_code") {
        Some(o) => o,
        None => { return None },
    };
    let error_description = match crate::error::opt_str_member(v, "error_description") {
        Some(o) => o,
        None => { return None },
    };
    let error_source = match crate::error::opt_str_member(v, "error_source") {
        Some(o) => o,
        None => { return None },
    };
    let error_reason = match crate::error::opt_str_member(v, "error_reason") {
        Some(o) => o,
        None => { return None },
    };
    Some(
        PaymentExtras {
            card_id,
            card,
            wallet,
            acquirer_data,
            bank,
            upi,
            vpa,
            emi,
            offers,
            error_code,
            error_description,
            error_source,
            error_reason,
        },
    )
}

/// What a payment body decodes to.  The `entity` tag must read
/// `payment`, ids must carry their prefixes, and the expandable
/// members — card, acquirer data, UPI, EMI, offers — decode when
/// present.
pub open spec fn sp_payment(v: JVal) -> Option<PaymentModel> {
    match v {
        JVal::Obj(m) => {
            let id = crate::decode::sp_req_str(crate::json::obj_get(m, "id"@));
            let amount = crate::decode::sp_req_u64(crate::json::obj_get(m, "amount"@));
            let currency = match crate::decode::sp_req_str(crate::json::obj_get(m, "currency"@)) {
                Some(s) => crate::common::spec_currency_from(s),
                None => None,
            };
            let status = match crate::decode::sp_req_str(crate::json::obj_get(m, "status"@)) {
                Some(s) => spec_payment_status_from(s),
                None => None,
            };
            let method = match crate::decode::sp_req_str(crate::json::obj_get(m, "method"@)) {
                Some(s) => spec_payment_method_from(s),
                None => None,
            };
            let order_id = crate::decode::sp_req_str(crate::json::obj_get(m, "order_id"@));
            let description = crate::error::sp_opt_str(crate::json::obj_get(m, "description"@));
            let international = crate::decode::sp_req_bool(
                crate::json::obj_get(m, "international"@),
            );
            let refund_status = sp_opt_refund_status(crate::json::obj_get(m, "refund_status"@));
            let amount_refunded = crate::decode::sp_req_u64(
                crate::json::obj_get(m, "amount_refunded"@),
            );
            let captured = crate::decode::sp_req_bool(crate::json::obj_get(m, "captured"@));
            let email = crate::decode::sp_req_str(crate::json::obj_get(m, "email"@));
            let contact = crate::error::sp_opt_str(crate::json::obj_get(m, "contact"@));
            let fee = crate::decode::sp_req_u64(crate::json::obj_get(m, "fee"@));
            let tax = crate::decode::sp_req_u64(crate::json::obj_get(m, "tax"@));
            let notes = crate::decode::sp_notes(crate::json::obj_get(m, "notes"@));
            let created_at = crate::decode::sp_req_i64(crate::json::obj_get(m, "created_at"@));
            let extras = sp_payment_extras(m);
            if {
                &&& crate::decode::sp_req_str(crate::json::obj_get(m, "entity"@)) == Some(
                    "payment"@,
                )
                &&& id is Some
                &&& amount is Some
                &&& currency is Some
                &&& status is Some
                &&& method is Some
                &&& order_id is Some
                &&& description is Some
                &&& international is Some
                &&& refund_status is Some
                &&& amount_refunded is Some
                &&& captured is Some
                &&& email is Some
                &&& contact is Some
                &&& fee is Some
                &&& tax is Some
                &&& notes is Some
                &&& created_at is Some
                &&& extras is Some
                &&& crate::strutil::spec_is_prefix("pay_"@, id->Some_0)
                &&& crate::strutil::spec_is_prefix("order_"@, order_id->Some_0)
            } {
                Some(
                    PaymentModel {
                        id: id->Some_0,
                        amount: amount->Some_0,
                        currency: currency->Some_0,
                        status: status->Some_0,
                        method: method->Some_0,
                        order_id: order_id->Some_0,
                        description: description->Some_0,
                        international: international->Some_0,
                        refund_status: refund_status->Some_0,
                        amount_refunded: amount_refunded->Some_0,
                        captured: captured->Some_0,
                        email: email->Some_0,
                        contact: contact->Some_0,
                        fee: fee->Some_0,
                        tax: tax->Some_0,
                        notes: notes->Some_0,
                        created_at: created_at->Some_0 as int,
                        card_id: extras->Some_0.card_id,
                        card: extras->Some_0.card,
                        wallet: extras->Some_0.wallet,
                        acquirer_data: extras->Some_0.acquirer_data,
                        bank: extras->Some_0.bank,
                        upi: extras->Some_0.upi,
                        vpa: extras->Some_0.vpa,
                        emi: extras->Some_0.emi,
                        offers: extras->Some_0.offers,
                        error_code: extras->Some_0.error_code,
                        error_description: extras->Some_0.error_description,
                        error_source: extras->Some_0.error_source,
                        error_reason: extras->Some_0.error_reason,
                    },
                )
            } else {
                None
            }
        },
        _ => None,
    }
}

impl Payment {
    /// Decodes a payment body; `None` exactly where the body does not
    /// have the payment shape.
    #[verifier::rlimit(100)]
    pub fn from_json(v: &JsonValue) -> (r: Option<Payment>)
        ensures
            match (r, sp_payment(v@)) {
                (Some(p), Some(m)) => p.model() == m,
                (None, None) => true,
                _ => false,
            },
    {
        if !(v matches JsonValue::Obj(_)) {
            return None;
        }
        match crate::decode::req_str(v.get_member("entity")) {
            Some(s) => if !crate::strutil::str_eq(s.as_str(), "payment") {
                return None;
            },
            None => { return None },
        }
        let id = match crate::decode::req_str(v.get_member("id")) {
            Some(s) => match PaymentId::parse(s.as_str()) {
                Ok(id) => id,
                Err(_) => { return None },
            },
            None => { return None },
        };
        let amount = match crate::decode::req_u64(v.get_member("amount")) {
            Some(n) => n,
            None => { return None },
        };
        let currency = match crate::decode::req_str(v.get_member("currency")) {
            Some(s) => match crate::common::Currency::parse(s.as_str()) {
                Some(c) => c,
                None => { return None },
            },
            None => { return None },
        };
        let status = match crate::decode::req_str(v.get_member("status")) {
            Some(s) => match PaymentStatus::parse(s.as_str()) {
                Some(st) => st,
                None => { return None },
            },
            None => { return None },
        };
        let method = match crate::decode::req_str(v.get_member("method")) {
            Some(s) => match PaymentMethod::parse(s.as_str()) {
                Some(me) => me,
                None => { return None },
            },
            None => { return None },
        };
        let order_id = match crate::decode::req_str(v.get_member("order_id")) {
            Some(s) => match OrderId::parse(s.as_str()) {
                Ok(id) => id,
                Err(_) => { return None },
            },
            None => { return None },
        };
        let description = match crate::error::opt_str_member(v, "description") {
            Some(o) => o,
            None => { return None },
        };
        let international = match crate::decode::req_bool(v.get_member("international")) {
            Some(b) => b,
            None => { return None },
        };
        let refund_status = match crate::error::opt_str_member(v, "refund_status") {
            Some(Some(s)) => match PaymentRefundStatus::parse(s.as_str()) {
                Some(x) => Some(x),
                None => { return None },
            },
            Some(None) => None,
            None => { return None },
        };
        let amount_refunded = match crate::decode::req_u64(v.get_member("amount_refunded")) {
            Some(n) => n,
            None => { return None },
        };
        let captured = match crate::decode::req_bool(v.get_member("captured")) {
            Some(b) => b,
            None => { return None },
        };
        let email = match crate::decode::req_str(v.get_member("email")) {
            Some(s) => s,
            None => { return None },
        };
        let contact = match crate::error::opt_str_member(v, "contact") {
            Some(o) => o,
            None => { return None },
        };
        let fee = match crate::decode::req_u64(v.get_member("fee")) {
            Some(n) => n,
            None => { return None },
        };
        let tax = match crate::decode::req_u64(v.get_member("tax")) {
            Some(n) => n,
            None => { return None },
        };
        let notes = match crate::decode::req_notes(v.get_member("notes")) {
            Some(o) => o,
            None => { return None },
        };
        let created_at = match crate::decode::req_i64(v.get_member("created_at")) {
            Some(n) => n,
            None => { return None },
        };
        let extras = match decode_payment_extras(v) {
            Some(e) => e,
            None => { return None },
        };
        Some(
            Payment {
                id,
                amount,
                currency,
                status,
                method,
                order_id,
                description,
                international,
                refund_status,
                amount_refunded,
                captured,
                email,
                contact,
                fee,
                tax,
                notes,
                created_at,
                card_id: extras.card_id,
                card: extras.card,
                wallet: extras.wallet,
                acquirer_data: extras.acquirer_data,
                bank: extras.bank,
                upi: extras.upi,
                vpa: extras.vpa,
                emi: extras.emi,
                offers: extras.offers,
                error_code: extras.error_code,
                error_description: extras.error_description,
                error_source: extras.error_source,
                error_reason: extras.error_reason,
            },
        )
    }
}

/// The models of a sequence of decoded payments, element for element.
pub open spec fn payment_views(items: Seq<Payment>) -> Seq<PaymentModel> {
    Seq::new(
        items.len(),
        |i: int|
            if 0 <= i < items.len() {
                items[i].model()
            } else {
                items[0].model()
            },
    )
}

/// The items of a payment listing, scanning from `i`: every element
/// must decode as a payment.
pub open spec fn sp_payment_items_from(items: Seq<JVal>, i: int) -> Option<Seq<PaymentModel>>
    decreases items.len() - i,
{
    if !(0 <= i < items.len()) {
        Some(Seq::empty())
    } else {
        match sp_payment(items[i]) {
            Some(m) => match sp_payment_items_from(items, i + 1) {
                Some(rest) => Some(seq![m] + rest),
                None => None,
            },
            None => None,
        }
    }
}

/// What a payment listing decodes to: an object tagged
/// `entity: "collection"`, its count, and its items all payments.
pub open spec fn sp_payment_collection(v: JVal) -> Option<(int, Seq<PaymentModel>)> {
    match v {
        JVal::Obj(m) => {
            if crate::decode::sp_req_str(crate::json::obj_get(m, "entity"@)) != Some(
                "collection"@,
            ) {
                None
            } else {
                match (crate::decode::sp_req_u64(crate::json::obj_get(m, "count"@)), (
                match crate::json::obj_get(m, "items"@) {
                    Some(JVal::Arr(items)) => sp_payment_items_from(items, 0),
                    _ => None,
                })) {
                    (Some(count), Some(items)) => if count <= usize::MAX {
                        Some((count as int, items))
                    } else {
                        None
                    },
                    _ => None,
                }
            }
        },
        _ => None,
    }
}

fn decode_payment_items(items: &Vec<JsonValue>, i: usize) -> (r: Option<Vec<Payment>>)
    requires
        i <= items@.len(),
    ensures
        match (r, sp_payment_items_from(crate::json::views_of(items@), i as int)) {
            (Some(ps), Some(ms)) => payment_views(ps@) == ms,
            (None, None) => true,
            _ => false,
        },
    decreases items@.len() - i,
{
    if i >= items.len() {
        let ps: Vec<Payment> = Vec::new();
        proof {
            assert(payment_views(ps@) =~= Seq::<PaymentModel>::empty());
        }
        Some(ps)
    } else {
        proof {
            assert(crate::json::views_of(items@)[i as int] == items@[i as int].jval());
        }
        match Payment::from_json(&items[i]) {
            None => None,
            Some(p) => match decode_payment_items(items, i + 1) {
                None => None,
                Some(mut rest) => {
                    let ghost rpre = rest@;
                    let ghost pm = p.model();
                    rest.insert(0, p);
                    proof {
                        let sv = crate::json::views_of(items@);
                        let srest = sp_payment_items_from(sv, i as int + 1)->Some_0;
                        assert(rest@ =~= seq![rest@[0]] + rpre);
                        assert forall|q: int| 0 <= q < srest.len() + 1 implies payment_views(
                            rest@,
                        )[q] == (seq![pm] + srest)[q] by {
                            if q > 0 {
                                assert(payment_views(rpre)[q - 1] == srest[q - 1]);
                            }
                        }
                        assert(payment_views(rest@) =~= seq![pm] + srest);
                    }
                    Some(rest)
                },
            },
        }
    }
}

impl Payment {
    /// Decodes a payment listing; `None` exactly where the body does
    /// not have the collection-of-payments shape.
    pub fn collection_from_json(v: &JsonValue) -> (r: Option<Collection<Payment>>)
        ensures
            match (r, sp_payment_collection(v@)) {
                (Some(c), Some((count, items))) => c.count as int == count && payment_views(
                    c.items@,
                ) == items,
                (None, None) => true,
                _ => false,
            },
    {
        if !(v matches JsonValue::Obj(_)) {
            return None;
        }
        let entity = match crate::decode::req_str(v.get_member("entity")) {
            Some(s) => match crate::entity::CollectionEntity::parse(s.as_str()) {
                Ok(e) => e,
                Err(_) => { return None },
            },
            None => { return None },
        };
        let count64 = match crate::decode::req_u64(v.get_member("count")) {
            Some(n) => n,
            None => { return None },
        };
        if count64 > usize::MAX as u64 {
            return None;
        }
        let items = match v.get_member("items") {
            Some(JsonValue::Arr(items)) => match decode_payment_items(items, 0) {
                Some(ps) => ps,
                None => { return None },
            },
            _ => { return None },
        };
        Some(Collection { entity, count: count64 as usize, items })
    }

    /// Reads a whole payment response body: the error shape wins, any
    /// other body must decode as a payment.
    pub fn decode_response(body: &str) -> (r: crate::error::RazorpayResult<Payment>)
        ensures
            match crate::parse::sp_json(body@) {
                None => r matches Err(e) && e is SerializationError,
                Some(v) => match crate::api::sp_envelope(v) {
                    crate::api::SpEnvelope::Failure(m) => r matches Err(
                        crate::error::RazorpayError::ApiError(e),
                    ) && e.model() == m,
                    crate::api::SpEnvelope::Success(w) => match sp_payment(w) {
                        Some(m) => r matches Ok(p) && p.model() == m,
                        None => r matches Err(e) && e is SerializationError,
                    },
                    crate::api::SpEnvelope::Malformed => r matches Err(e)
                        && e is SerializationError,
                },
            },
    {
        match crate::api::decode_response(body) {
            Err(e) => Err(e),
            Ok(v) => match Payment::from_json(&v) {
                Some(p) => Ok(p),
                None => Err(
                    crate::error::RazorpayError::SerializationError(
                        String::from_str("response body does not have the payment shape"),
                    ),
                ),
            },
        }
    }

    /// Reads a whole payment-listing response body: the error shape
    /// wins, any other body must decode as a collection of payments.
    pub fn decode_collection_response(body: &str) -> (r: crate::error::RazorpayResult<
        Collection<Payment>,
    >)
        ensures
            match crate::parse::sp_json(body@) {
                None => r matches Err(e) && e is SerializationError,
                Some(v) => match crate::api::sp_envelope(v) {
                    crate::api::SpEnvelope::Failure(m) => r matches Err(
                        crate::error::RazorpayError::ApiError(e),
                    ) && e.model() == m,
                    crate::api::SpEnvelope::Success(w) => match sp_payment_collection(w) {
                        Some((count, items)) => r matches Ok(c) && c.count as int == count
                            && payment_views(c.items@) == items,
                        None => r matches Err(e) && e is SerializationError,
                    },
                    crate::api::SpEnvelope::Malformed => r matches Err(e)
                        && e is SerializationError,
                },
            },
    {
        match crate::api::decode_response(body) {
            Err(e) => Err(e),
            Ok(v) => match Payment::collection_from_json(&v) {
                Some(c) => Ok(c),
                None => Err(
                    crate::error::RazorpayError::SerializationError(
                        String::from_str(
                            "response body does not have the collection-of-payments shape",
                        ),
                    ),
                ),
            },
        }
    }
}


/// An optional payments page: absent or `null` count as absent; a
/// present one must decode as a collection of payments.
pub open spec fn sp_opt_payments(v: Option<JVal>) -> Option<Option<(int, Seq<PaymentModel>)>> {
    match v {
        None => Some(None),
        Some(JVal::Null) => Some(None),
        Some(w) => match sp_payment_collection(w) {
            Some(c) => Some(Some(c)),
            None => None,
        },
    }
}

} // verus!
