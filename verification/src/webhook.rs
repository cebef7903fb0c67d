//! Webhooks: the typed event a delivery decodes to, the signature
//! check that must pass before any of it is trusted, and the requests
//! of the webhook management calls.

use vstd::prelude::*;
use vstd::string::StringSliceAdditionalSpecFns;

use crate::api::RequestParams;
use crate::common::{Filter, Timestamp};
use crate::ids::AccountId;
use crate::json::{obj_get, JVal, JsonValue};
use crate::order::{sp_order, Order, OrderModel};
use crate::util::spec_webhook_signature;

verus! {

/// Why a delivery was rejected: the signature did not match, or the
/// body did not parse as an event.
#[derive(Clone, Debug, PartialEq, Eq)]
pub enum WebhookError {
    /// The body was authentic but is not a well-formed event, with an
    /// account of the failure.
    ParseError(String),
    /// The signature does not match the body under the shared secret.
    BadSignature,
}

impl WebhookError {
    /// The error as one human-readable text.
    pub fn message(&self) -> (r: String)
        ensures
            match self {
                WebhookError::ParseError(c) => r@ == "Parsing error: "@ + c@,
                WebhookError::BadSignature => r@ == "Bad signature"@,
            },
    {
        match self {
            WebhookError::ParseError(c) => {
                let mut m = String::from_str("Parsing error: ");
                m.append(c.as_str());
                m
            },
            WebhookError::BadSignature => String::from_str("Bad signature"),
        }
    }
}

/// Every kind of event the service can deliver.
#[derive(Clone, Copy, Debug, PartialEq, Eq, Structural)]
pub enum EventType {
    PaymentAuthorized,
    PaymentFailed,
    PaymentCaptured,
    PaymentDisputeCreated,
    PaymentDisputeWon,
    PaymentDisputeLost,
    PaymentDisputeClosed,
    PaymentDisputeUnderReview,
    PaymentDisputeActionRequired,
    PaymentDowntimeStarted,
    PaymentDowntimeUpdated,
    PaymentDowntimeResolved,
    OrderPaid,
    InvoicePaid,
    InvoicePartiallyPaid,
    InvoiceExpired,
    SubscriptionAuthenticated,
    SubscriptionPaused,
    SubscriptionResumed,
    SubscriptionActivated,
    SubscriptionPending,
    SubscriptionHalted,
    SubscriptionCharged,
    SubscriptionCancelled,
    SubscriptionCompleted,
    SubscriptionUpdated,
    SettlementProcessed,
    VirtualAccountCredited,
    VirtualAccountCreated,
    VirtualAccountClosed,
    FundAccountValidationCompleted,
    FundAccountValidationFailed,
    PayoutProcessed,
    PayoutReversed,
    PayoutInitiated,
    PayoutUpdated,
    PayoutRejected,
    PayoutPending,
    PayoutQueued,
    PayoutFailed,
    PayoutDowntimeStarted,
    PayoutDowntimeResolved,
    RefundSpeedChanged,
    RefundProcessed,
    RefundFailed,
    RefundCreated,
    TransferProcessed,
    TransferFailed,
    AccountUnderReview,
    AccountNeedsClarification,
    AccountActivated,
    AccountRejected,
    AccountUpdated,
    AccountSuspended,
    AccountFundsHold,
    AccountFundsUnhold,
    AccountInstantlyActivated,
    AccountPaymentsEnabled,
    PaymentLinkPending,
    PaymentLinkPaid,
    PaymentLinkPartiallyPaid,
    PaymentLinkExpired,
    PaymentLinkCancelled,
    ProductRouteActivated,
    ProductRouteUnderReview,
    ProductRouteNeedsClarification,
    ProductRouteRejected,
    ProductPaymentGatewayActivated,
    ProductPaymentGatewayUnderReview,
    ProductPaymentGatewayNeedsClarification,
    ProductPaymentGatewayRejected,
    ProductPaymentGatewayActivatedKYCPending,
    AccountAppAuthorizationRevoked,
    PayoutLinkPending,
    PayoutLinkIssued,
    PayoutLinkProcessing,
    PayoutLinkProcessed,
    PayoutLinkAttempted,
    PayoutLinkCancelled,
    PayoutLinkRejected,
    PayoutLinkExpired,
    TransactionCreated,
}

/// The wire name of an event kind.
pub open spec fn event_type_code(e: EventType) -> Seq<char> {
    match e {
        EventType::PaymentAuthorized => "payment.authorized"@,
        EventType::PaymentFailed => "payment.failed"@,
        EventType::PaymentCaptured => "payment.captured"@,
        EventType::PaymentDisputeCreated => "payment.dispute.created"@,
        EventType::PaymentDisputeWon => "payment.dispute.won"@,
        EventType::PaymentDisputeLost => "payment.dispute.lost"@,
        EventType::PaymentDisputeClosed => "payment.dispute.closed"@,
        EventType::PaymentDisputeUnderReview => "payment.dispute.under_review"@,
        EventType::PaymentDisputeActionRequired => "payment.dispute.action_required"@,
        EventType::PaymentDowntimeStarted => "payment.downtime.started"@,
        EventType::PaymentDowntimeUpdated => "payment.downtime.updated"@,
        EventType::PaymentDowntimeResolved => "payment.downtime.resolved"@,
        EventType::OrderPaid => "order.paid"@,
        EventType::InvoicePaid => "invoice.paid"@,
        EventType::InvoicePartiallyPaid => "invoice.partially_paid"@,
        EventType::InvoiceExpired => "invoice.expired"@,
        EventType::SubscriptionAuthenticated => "subscription.authenticated"@,
        EventType::SubscriptionPaused => "subscription.paused"@,
        EventType::SubscriptionResumed => "subscription.resumed"@,
        EventType::SubscriptionActivated => "subscription.activated"@,
        EventType::SubscriptionPending => "subscription.pending"@,
        EventType::SubscriptionHalted => "subscription.halted"@,
        EventType::SubscriptionCharged => "subscription.charged"@,
        EventType::SubscriptionCancelled => "subscription.cancelled"@,
        EventType::SubscriptionCompleted => "subscription.completed"@,
        EventType::SubscriptionUpdated => "subscription.updated"@,
        EventType::SettlementProcessed => "settlement.processed"@,
        EventType::VirtualAccountCredited => "virtual_account.credited"@,
        EventType::VirtualAccountCreated => "virtual_account.created"@,
        EventType::VirtualAccountClosed => "virtual_account.closed"@,
        EventType::FundAccountValidationCompleted => "fund_account.validation.completed"@,
        EventType::FundAccountValidationFailed => "fund_account.validation.failed"@,
        EventType::PayoutProcessed => "payout.processed"@,
        EventType::PayoutReversed => "payout.reversed"@,
        EventType::PayoutInitiated => "payout.initiated"@,
        EventType::PayoutUpdated => "payout.updated"@,
        EventType::PayoutRejected => "payout.rejected"@,
        EventType::PayoutPending => "payout.pending"@,
        EventType::PayoutQueued => "payout.queued"@,
        EventType::PayoutFailed => "payout.failed"@,
        EventType::PayoutDowntimeStarted => "payout.downtime.started"@,
        EventType::PayoutDowntimeResolved => "payout.downtime.resolved"@,
        EventType::RefundSpeedChanged => "refund.speed_changed"@,
        EventType::RefundProcessed => "refund.processed"@,
        EventType::RefundFailed => "refund.failed"@,
        EventType::RefundCreated => "refund.created"@,
        EventType::TransferProcessed => "transfer.processed"@,
        EventType::TransferFailed => "transfer.failed"@,
        EventType::AccountUnderReview => "account.under_review"@,
        EventType::AccountNeedsClarification => "account.needs_clarification"@,
        EventType::AccountActivated => "account.activated"@,
        EventType::AccountRejected => "account.rejected"@,
        EventType::AccountUpdated => "account.updated"@,
        EventType::AccountSuspended => "account.suspended"@,
        EventType::AccountFundsHold => "account.funds_hold"@,
        EventType::AccountFundsUnhold => "account.funds_unhold"@,
        EventType::AccountInstantlyActivated => "account.instantly_activated"@,
        EventType::AccountPaymentsEnabled => "account.payments_enabled"@,
        EventType::PaymentLinkPending => "PaymentLinkPending"@,
        EventType::PaymentLinkPaid => "payment_link.paid"@,
        EventType::PaymentLinkPartiallyPaid => "payment_link.partially_paid"@,
        EventType::PaymentLinkExpired => "payment_link.expired"@,
        EventType::PaymentLinkCancelled => "payment_link.cancelled"@,
        EventType::ProductRouteActivated => "product.route.activated"@,
        EventType::ProductRouteUnderReview => "product.route.under_review"@,
        EventType::ProductRouteNeedsClarification => "product.route.needs_clarification"@,
        EventType::ProductRouteRejected => "product.route.rejected"@,
        EventType::ProductPaymentGatewayActivated => "product.payment_gateway.activated"@,
        EventType::ProductPaymentGatewayUnderReview => "product.payment_gateway.under_review"@,
        EventType::ProductPaymentGatewayNeedsClarification => "product.payment_gateway.needs_clarification"@,
        EventType::ProductPaymentGatewayRejected => "product.payment_gateway.rejected"@,
        EventType::ProductPaymentGatewayActivatedKYCPending => "product.payment_gateway.activated_kyc_pending"@,
        EventType::AccountAppAuthorizationRevoked => "account.app.authorization_revoked"@,
        EventType::PayoutLinkPending => "payout_link.pending"@,
        EventType::PayoutLinkIssued => "payout_link.issued"@,
        EventType::PayoutLinkProcessing => "payout_link.processing"@,
        EventType::PayoutLinkProcessed => "payout_link.processed"@,
        EventType::PayoutLinkAttempted => "payout_link.attempted"@,
        EventType::PayoutLinkCancelled => "payout_link.cancelled"@,
        EventType::PayoutLinkRejected => "payout_link.rejected"@,
        EventType::PayoutLinkExpired => "payout_link.expired"@,
        EventType::TransactionCreated => "transaction.created"@,
    }
}

/// The event kind a wire name denotes, if any.
pub open spec fn spec_event_type_from(s: Seq<char>) -> Option<EventType> {
    if s == "payment.authorized"@ {
        Some(EventType::PaymentAuthorized)
    } else if s == "payment.failed"@ {
        Some(EventType::PaymentFailed)
    } else if s == "payment.captured"@ {
        Some(EventType::PaymentCaptured)
    } else if s == "payment.dispute.created"@ {
        Some(EventType::PaymentDisputeCreated)
    } else if s == "payment.dispute.won"@ {
        Some(EventType::PaymentDisputeWon)
    } else if s == "payment.dispute.lost"@ {
        Some(EventType::PaymentDisputeLost)
    } else if s == "payment.dispute.closed"@ {
        Some(EventType::PaymentDisputeClosed)
    } else if s == "payment.dispute.under_review"@ {
        Some(EventType::PaymentDisputeUnderReview)
    } else if s == "payment.dispute.action_required"@ {
        Some(EventType::PaymentDisputeActionRequired)
    } else if s == "payment.downtime.started"@ {
        Some(EventType::PaymentDowntimeStarted)
    } else if s == "payment.downtime.updated"@ {
        Some(EventType::PaymentDowntimeUpdated)
    } else if s == "payment.downtime.resolved"@ {
        Some(EventType::PaymentDowntimeResolved)
    } else if s == "order.paid"@ {
        Some(EventType::OrderPaid)
    } else if s == "invoice.paid"@ {
        Some(EventType::InvoicePaid)
    } else if s == "invoice.partially_paid"@ {
        Some(EventType::InvoicePartiallyPaid)
    } else if s == "invoice.expired"@ {
        Some(EventType::InvoiceExpired)
    } else if s == "subscription.authenticated"@ {
        Some(EventType::SubscriptionAuthenticated)
    } else if s == "subscription.paused"@ {
        Some(EventType::SubscriptionPaused)
    } else if s == "subscription.resumed"@ {
        Some(EventType::SubscriptionResumed)
    } else if s == "subscription.activated"@ {
        Some(EventType::SubscriptionActivated)
    } else if s == "subscription.pending"@ {
        Some(EventType::SubscriptionPending)
    } else if s == "subscription.halted"@ {
        Some(EventType::SubscriptionHalted)
    } else if s == "subscription.charged"@ {
        Some(EventType::SubscriptionCharged)
    } else if s == "subscription.cancelled"@ {
        Some(EventType::SubscriptionCancelled)
    } else if s == "subscription.completed"@ {
        Some(EventType::SubscriptionCompleted)
    } else if s == "subscription.updated"@ {
        Some(EventType::SubscriptionUpdated)
    } else if s == "settlement.processed"@ {
        Some(EventType::SettlementProcessed)
    } else if s == "virtual_account.credited"@ {
        Some(EventType::VirtualAccountCredited)
    } else if s == "virtual_account.created"@ {
        Some(EventType::VirtualAccountCreated)
    } else if s == "virtual_account.closed"@ {
        Some(EventType::VirtualAccountClosed)
    } else if s == "fund_account.validation.completed"@ {
        Some(EventType::FundAccountValidationCompleted)
    } else if s == "fund_account.validation.failed"@ {
        Some(EventType::FundAccountValidationFailed)
    } else if s == "payout.processed"@ {
        Some(EventType::PayoutProcessed)
    } else if s == "payout.reversed"@ {
        Some(EventType::PayoutReversed)
    } else if s == "payout.initiated"@ {
        Some(EventType::PayoutInitiated)
    } else if s == "payout.updated"@ {
        Some(EventType::PayoutUpdated)
    } else if s == "payout.rejected"@ {
        Some(EventType::PayoutRejected)
    } else if s == "payout.pending"@ {
        Some(EventType::PayoutPending)
    } else if s == "payout.queued"@ {
        Some(EventType::PayoutQueued)
    } else if s == "payout.failed"@ {
        Some(EventType::PayoutFailed)
    } else if s == "payout.downtime.started"@ {
        Some(EventType::PayoutDowntimeStarted)
    } else if s == "payout.downtime.resolved"@ {
        Some(EventType::PayoutDowntimeResolved)
    } else if s == "refund.speed_changed"@ {
        Some(EventType::RefundSpeedChanged)
    } else if s == "refund.processed"@ {
        Some(EventType::RefundProcessed)
    } else if s == "refund.failed"@ {
        Some(EventType::RefundFailed)
    } else if s == "refund.created"@ {
        Some(EventType::RefundCreated)
    } else if s == "transfer.processed"@ {
        Some(EventType::TransferProcessed)
    } else if s == "transfer.failed"@ {
        Some(EventType::TransferFailed)
    } else if s == "account.under_review"@ {
        Some(EventType::AccountUnderReview)
    } else if s == "account.needs_clarification"@ {
        Some(EventType::AccountNeedsClarification)
    } else if s == "account.activated"@ {
        Some(EventType::AccountActivated)
    } else if s == "account.rejected"@ {
        Some(EventType::AccountRejected)
    } else if s == "account.updated"@ {
        Some(EventType::AccountUpdated)
    } else if s == "account.suspended"@ {
        Some(EventType::AccountSuspended)
    } else if s == "account.funds_hold"@ {
        Some(EventType::AccountFundsHold)
    } else if s == "account.funds_unhold"@ {
        Some(EventType::AccountFundsUnhold)
    } else if s == "account.instantly_activated"@ {
        Some(EventType::AccountInstantlyActivated)
    } else if s == "account.payments_enabled"@ {
        Some(EventType::AccountPaymentsEnabled)
    } else if s == "PaymentLinkPending"@ {
        Some(EventType::PaymentLinkPending)
    } else if s == "payment_link.paid"@ {
        Some(EventType::PaymentLinkPaid)
    } else if s == "payment_link.partially_paid"@ {
        Some(EventType::PaymentLinkPartiallyPaid)
    } else if s == "payment_link.expired"@ {
        Some(EventType::PaymentLinkExpired)
    } else if s == "payment_link.cancelled"@ {
        Some(EventType::PaymentLinkCancelled)
    } else if s == "product.route.activated"@ {
        Some(EventType::ProductRouteActivated)
    } else if s == "product.route.under_review"@ {
        Some(EventType::ProductRouteUnderReview)
    } else if s == "product.route.needs_clarification"@ {
        Some(EventType::ProductRouteNeedsClarification)
    } else if s == "product.route.rejected"@ {
        Some(EventType::ProductRouteRejected)
    } else if s == "product.payment_gateway.activated"@ {
        Some(EventType::ProductPaymentGatewayActivated)
    } else if s == "product.payment_gateway.under_review"@ {
        Some(EventType::ProductPaymentGatewayUnderReview)
    } else if s == "product.payment_gateway.needs_clarification"@ {
        Some(EventType::ProductPaymentGatewayNeedsClarification)
    } else if s == "product.payment_gateway.rejected"@ {
        Some(EventType::ProductPaymentGatewayRejected)
    } else if s == "product.payment_gateway.activated_kyc_pending"@ {
        Some(EventType::ProductPaymentGatewayActivatedKYCPending)
    } else if s == "account.app.authorization_revoked"@ {
        Some(EventType::AccountAppAuthorizationRevoked)
    } else if s == "payout_link.pending"@ {
        Some(EventType::PayoutLinkPending)
    } else if s == "payout_link.issued"@ {
        Some(EventType::PayoutLinkIssued)
    } else if s == "payout_link.processing"@ {
        Some(EventType::PayoutLinkProcessing)
    } else if s == "payout_link.processed"@ {
        Some(EventType::PayoutLinkProcessed)
    } else if s == "payout_link.attempted"@ {
        Some(EventType::PayoutLinkAttempted)
    } else if s == "payout_link.cancelled"@ {
        Some(EventType::PayoutLinkCancelled)
    } else if s == "payout_link.rejected"@ {
        Some(EventType::PayoutLinkRejected)
    } else if s == "payout_link.expired"@ {
        Some(EventType::PayoutLinkExpired)
    } else if s == "transaction.created"@ {
        Some(EventType::TransactionCreated)
    } else {
        None
    }
}

impl EventType {
    /// The wire name of this event kind.
    pub fn as_str(&self) -> (r: &'static str)
        ensures
            r@ == event_type_code(*self),
    {
        match self {
            EventType::PaymentAuthorized => "payment.authorized",
            EventType::PaymentFailed => "payment.failed",
            EventType::PaymentCaptured => "payment.captured",
            EventType::PaymentDisputeCreated => "payment.dispute.created",
            EventType::PaymentDisputeWon => "payment.dispute.won",
            EventType::PaymentDisputeLost => "payment.dispute.lost",
            EventType::PaymentDisputeClosed => "payment.dispute.closed",
            EventType::PaymentDisputeUnderReview => "payment.dispute.under_review",
            EventType::PaymentDisputeActionRequired => "payment.dispute.action_required",
            EventType::PaymentDowntimeStarted => "payment.downtime.started",
            EventType::PaymentDowntimeUpdated => "payment.downtime.updated",
            EventType::PaymentDowntimeResolved => "payment.downtime.resolved",
            EventType::OrderPaid => "order.paid",
            EventType::InvoicePaid => "invoice.paid",
            EventType::InvoicePartiallyPaid => "invoice.partially_paid",
            EventType::InvoiceExpired => "invoice.expired",
            EventType::SubscriptionAuthenticated => "subscription.authenticated",
            EventType::SubscriptionPaused => "subscription.paused",
            EventType::SubscriptionResumed => "subscription.resumed",
            EventType::SubscriptionActivated => "subscription.activated",
            EventType::SubscriptionPending => "subscription.pending",
            EventType::SubscriptionHalted => "subscription.halted",
            EventType::SubscriptionCharged => "subscription.charged",
            EventType::SubscriptionCancelled => "subscription.cancelled",
            EventType::SubscriptionCompleted => "subscription.completed",
            EventType::SubscriptionUpdated => "subscription.updated",
            EventType::SettlementProcessed => "settlement.processed",
            EventType::VirtualAccountCredited => "virtual_account.credited",
            EventType::VirtualAccountCreated => "virtual_account.created",
            EventType::VirtualAccountClosed => "virtual_account.closed",
            EventType::FundAccountValidationCompleted => "fund_account.validation.completed",
            EventType::FundAccountValidationFailed => "fund_account.validation.failed",
            EventType::PayoutProcessed => "payout.processed",
            EventType::PayoutReversed => "payout.reversed",
            EventType::PayoutInitiated => "payout.initiated",
            EventType::PayoutUpdated => "payout.updated",
            EventType::PayoutRejected => "payout.rejected",
            EventType::PayoutPending => "payout.pending",
            EventType::PayoutQueued => "payout.queued",
            EventType::PayoutFailed => "payout.failed",
            EventType::PayoutDowntimeStarted => "payout.downtime.started",
            EventType::PayoutDowntimeResolved => "payout.downtime.resolved",
            EventType::RefundSpeedChanged => "refund.speed_changed",
            EventType::RefundProcessed => "refund.processed",
            EventType::RefundFailed => "refund.failed",
            EventType::RefundCreated => "refund.created",
            EventType::TransferProcessed => "transfer.processed",
            EventType::TransferFailed => "transfer.failed",
            EventType::AccountUnderReview => "account.under_review",
            EventType::AccountNeedsClarification => "account.needs_clarification",
            EventType::AccountActivated => "account.activated",
            EventType::AccountRejected => "account.rejected",
            EventType::AccountUpdated => "account.updated",
            EventType::AccountSuspended => "account.suspended",
            EventType::AccountFundsHold => "account.funds_hold",
            EventType::AccountFundsUnhold => "account.funds_unhold",
            EventType::AccountInstantlyActivated => "account.instantly_activated",
            EventType::AccountPaymentsEnabled => "account.payments_enabled",
            EventType::PaymentLinkPending => "PaymentLinkPending",
            EventType::PaymentLinkPaid => "payment_link.paid",
            EventType::PaymentLinkPartiallyPaid => "payment_link.partially_paid",
            EventType::PaymentLinkExpired => "payment_link.expired",
            EventType::PaymentLinkCancelled => "payment_link.cancelled",
            EventType::ProductRouteActivated => "product.route.activated",
            EventType::ProductRouteUnderReview => "product.route.under_review",
            EventType::ProductRouteNeedsClarification => "product.route.needs_clarification",
            EventType::ProductRouteRejected => "product.route.rejected",
            EventType::ProductPaymentGatewayActivated => "product.payment_gateway.activated",
            EventType::ProductPaymentGatewayUnderReview => "product.payment_gateway.under_review",
            EventType::ProductPaymentGatewayNeedsClarification => "product.payment_gateway.needs_clarification",
            EventType::ProductPaymentGatewayRejected => "product.payment_gateway.rejected",
            EventType::ProductPaymentGatewayActivatedKYCPending => "product.payment_gateway.activated_kyc_pending",
            EventType::AccountAppAuthorizationRevoked => "account.app.authorization_revoked",
            EventType::PayoutLinkPending => "payout_link.pending",
            EventType::PayoutLinkIssued => "payout_link.issued",
            EventType::PayoutLinkProcessing => "payout_link.processing",
            EventType::PayoutLinkProcessed => "payout_link.processed",
            EventType::PayoutLinkAttempted => "payout_link.attempted",
            EventType::PayoutLinkCancelled => "payout_link.cancelled",
            EventType::PayoutLinkRejected => "payout_link.rejected",
            EventType::PayoutLinkExpired => "payout_link.expired",
            EventType::TransactionCreated => "transaction.created",
        }
    }

    /// Accepts exactly the wire names of the event kinds.
    pub fn parse(s: &str) -> (r: Option<EventType>)
        ensures
            r == spec_event_type_from(s@),
    {
        if crate::strutil::str_eq(s, "payment.authorized") {
            Some(EventType::PaymentAuthorized)
        } else if crate::strutil::str_eq(s, "payment.failed") {
            Some(EventType::PaymentFailed)
        } else if crate::strutil::str_eq(s, "payment.captured") {
            Some(EventType::PaymentCaptured)
        } else if crate::strutil::str_eq(s, "payment.dispute.created") {
            Some(EventType::PaymentDisputeCreated)
        } else if crate::strutil::str_eq(s, "payment.dispute.won") {
            Some(EventType::PaymentDisputeWon)
        } else if crate::strutil::str_eq(s, "payment.dispute.lost") {
            Some(EventType::PaymentDisputeLost)
        } else if crate::strutil::str_eq(s, "payment.dispute.closed") {
            Some(EventType::PaymentDisputeClosed)
        } else if crate::strutil::str_eq(s, "payment.dispute.under_review") {
            Some(EventType::PaymentDisputeUnderReview)
        } else if crate::strutil::str_eq(s, "payment.dispute.action_required") {
            Some(EventType::PaymentDisputeActionRequired)
        } else if crate::strutil::str_eq(s, "payment.downtime.started") {
            Some(EventType::PaymentDowntimeStarted)
        } else if crate::strutil::str_eq(s, "payment.downtime.updated") {
            Some(EventType::PaymentDowntimeUpdated)
        } else if crate::strutil::str_eq(s, "payment.downtime.resolved") {
            Some(EventType::PaymentDowntimeResolved)
        } else if crate::strutil::str_eq(s, "order.paid") {
            Some(EventType::OrderPaid)
        } else if crate::strutil::str_eq(s, "invoice.paid") {
            Some(EventType::InvoicePaid)
        } else if crate::strutil::str_eq(s, "invoice.partially_paid") {
            Some(EventType::InvoicePartiallyPaid)
        } else if crate::strutil::str_eq(s, "invoice.expired") {
            Some(EventType::InvoiceExpired)
        } else if crate::strutil::str_eq(s, "subscription.authenticated") {
            Some(EventType::SubscriptionAuthenticated)
        } else if crate::strutil::str_eq(s, "subscription.paused") {
            Some(EventType::SubscriptionPaused)
        } else if crate::strutil::str_eq(s, "subscription.resumed") {
            Some(EventType::SubscriptionResumed)
        } else if crate::strutil::str_eq(s, "subscription.activated") {
            Some(EventType::SubscriptionActivated)
        } else if crate::strutil::str_eq(s, "subscription.pending") {
            Some(EventType::SubscriptionPending)
        } else if crate::strutil::str_eq(s, "subscription.halted") {
            Some(EventType::SubscriptionHalted)
        } else if crate::strutil::str_eq(s, "subscription.charged") {
            Some(EventType::SubscriptionCharged)
        } else if crate::strutil::str_eq(s, "subscription.cancelled") {
            Some(EventType::SubscriptionCancelled)
        } else if crate::strutil::str_eq(s, "subscription.completed") {
            Some(EventType::SubscriptionCompleted)
        } else if crate::strutil::str_eq(s, "subscription.updated") {
            Some(EventType::SubscriptionUpdated)
        } else if crate::strutil::str_eq(s, "settlement.processed") {
            Some(EventType::SettlementProcessed)
        } else if crate::strutil::str_eq(s, "virtual_account.credited") {
            Some(EventType::VirtualAccountCredited)
        } else if crate::strutil::str_eq(s, "virtual_account.created") {
            Some(EventType::VirtualAccountCreated)
        } else if crate::strutil::str_eq(s, "virtual_account.closed") {
            Some(EventType::VirtualAccountClosed)
        } else if crate::strutil::str_eq(s, "fund_account.validation.completed") {
            Some(EventType::FundAccountValidationCompleted)
        } else if crate::strutil::str_eq(s, "fund_account.validation.failed") {
            Some(EventType::FundAccountValidationFailed)
        } else if crate::strutil::str_eq(s, "payout.processed") {
            Some(EventType::PayoutProcessed)
        } else if crate::strutil::str_eq(s, "payout.reversed") {
            Some(EventType::PayoutReversed)
        } else if crate::strutil::str_eq(s, "payout.initiated") {
            Some(EventType::PayoutInitiated)
        } else if crate::strutil::str_eq(s, "payout.updated") {
            Some(EventType::PayoutUpdated)
        } else if crate::strutil::str_eq(s, "payout.rejected") {
            Some(EventType::PayoutRejected)
        } else if crate::strutil::str_eq(s, "payout.pending") {
            Some(EventType::PayoutPending)
        } else if crate::strutil::str_eq(s, "payout.queued") {
            Some(EventType::PayoutQueued)
        } else if crate::strutil::str_eq(s, "payout.failed") {
            Some(EventType::PayoutFailed)
        } else if crate::strutil::str_eq(s, "payout.downtime.started") {
            Some(EventType::PayoutDowntimeStarted)
        } else if crate::strutil::str_eq(s, "payout.downtime.resolved") {
            Some(EventType::PayoutDowntimeResolved)
        } else if crate::strutil::str_eq(s, "refund.speed_changed") {
            Some(EventType::RefundSpeedChanged)
        } else if crate::strutil::str_eq(s, "refund.processed") {
            Some(EventType::RefundProcessed)
        } else if crate::strutil::str_eq(s, "refund.failed") {
            Some(EventType::RefundFailed)
        } else if crate::strutil::str_eq(s, "refund.created") {
            Some(EventType::RefundCreated)
        } else if crate::strutil::str_eq(s, "transfer.processed") {
            Some(EventType::TransferProcessed)
        } else if crate::strutil::str_eq(s, "transfer.failed") {
            Some(EventType::TransferFailed)
        } else if crate::strutil::str_eq(s, "account.under_review") {
            Some(EventType::AccountUnderReview)
        } else if crate::strutil::str_eq(s, "account.needs_clarification") {
            Some(EventType::AccountNeedsClarification)
        } else if crate::strutil::str_eq(s, "account.activated") {
            Some(EventType::AccountActivated)
        } else if crate::strutil::str_eq(s, "account.rejected") {
            Some(EventType::AccountRejected)
        } else if crate::strutil::str_eq(s, "account.updated") {
            Some(EventType::AccountUpdated)
        } else if crate::strutil::str_eq(s, "account.suspended") {
            Some(EventType::AccountSuspended)
        } else if crate::strutil::str_eq(s, "account.funds_hold") {
            Some(EventType::AccountFundsHold)
        } else if crate::strutil::str_eq(s, "account.funds_unhold") {
            Some(EventType::AccountFundsUnhold)
        } else if crate::strutil::str_eq(s, "account.instantly_activated") {
            Some(EventType::AccountInstantlyActivated)
        } else if crate::strutil::str_eq(s, "account.payments_enabled") {
            Some(EventType::AccountPaymentsEnabled)
        } else if crate::strutil::str_eq(s, "PaymentLinkPending") {
            Some(EventType::PaymentLinkPending)
        } else if crate::strutil::str_eq(s, "payment_link.paid") {
            Some(EventType::PaymentLinkPaid)
        } else if crate::strutil::str_eq(s, "payment_link.partially_paid") {
            Some(EventType::PaymentLinkPartiallyPaid)
        } else if crate::strutil::str_eq(s, "payment_link.expired") {
            Some(EventType::PaymentLinkExpired)
        } else if crate::strutil::str_eq(s, "payment_link.cancelled") {
            Some(EventType::PaymentLinkCancelled)
        } else if crate::strutil::str_eq(s, "product.route.activated") {
            Some(EventType::ProductRouteActivated)
        } else if crate::strutil::str_eq(s, "product.route.under_review") {
            Some(EventType::ProductRouteUnderReview)
        } else if crate::strutil::str_eq(s, "product.route.needs_clarification") {
            Some(EventType::ProductRouteNeedsClarification)
        } else if crate::strutil::str_eq(s, "product.route.rejected") {
            Some(EventType::ProductRouteRejected)
        } else if crate::strutil::str_eq(s, "product.payment_gateway.activated") {
            Some(EventType::ProductPaymentGatewayActivated)
        } else if crate::strutil::str_eq(s, "product.payment_gateway.under_review") {
            Some(EventType::ProductPaymentGatewayUnderReview)
        } else if crate::strutil::str_eq(s, "product.payment_gateway.needs_clarification") {
            Some(EventType::ProductPaymentGatewayNeedsClarification)
        } else if crate::strutil::str_eq(s, "product.payment_gateway.rejected") {
            Some(EventType::ProductPaymentGatewayRejected)
        } else if crate::strutil::str_eq(s, "product.payment_gateway.activated_kyc_pending") {
            Some(EventType::ProductPaymentGatewayActivatedKYCPending)
        } else if crate::strutil::str_eq(s, "account.app.authorization_revoked") {
            Some(EventType::AccountAppAuthorizationRevoked)
        } else if crate::strutil::str_eq(s, "payout_link.pending") {
            Some(EventType::PayoutLinkPending)
        } else if crate::strutil::str_eq(s, "payout_link.issued") {
            Some(EventType::PayoutLinkIssued)
        } else if crate::strutil::str_eq(s, "payout_link.processing") {
            Some(EventType::PayoutLinkProcessing)
        } else if crate::strutil::str_eq(s, "payout_link.processed") {
            Some(EventType::PayoutLinkProcessed)
        } else if crate::strutil::str_eq(s, "payout_link.attempted") {
            Some(EventType::PayoutLinkAttempted)
        } else if crate::strutil::str_eq(s, "payout_link.cancelled") {
            Some(EventType::PayoutLinkCancelled)
        } else if crate::strutil::str_eq(s, "payout_link.rejected") {
            Some(EventType::PayoutLinkRejected)
        } else if crate::strutil::str_eq(s, "payout_link.expired") {
            Some(EventType::PayoutLinkExpired)
        } else if crate::strutil::str_eq(s, "transaction.created") {
            Some(EventType::TransactionCreated)
        } else {
            None
        }
    }
}

/// The kinds of entity a delivery can carry in its payload.
#[derive(Clone, Copy, Debug, PartialEq, Eq, Structural)]
pub enum WebhookPayloadItemName {
    Order,
    Payment,
    Refund,
    Dispute,
    Invoice,
    Subscription,
    Transfer,
    VirtualAccount,
    PaymentLink,
    FundAccountValidation,
    Payout,
    PayoutLink,
    MerchantProduct,
    Account,
    PayoutDowntime,
    Transaction,
}

/// The wire name of a payload item kind.
pub open spec fn item_name_code(n: WebhookPayloadItemName) -> Seq<char> {
    match n {
        WebhookPayloadItemName::Order => "order"@,
        WebhookPayloadItemName::Payment => "payment"@,
        WebhookPayloadItemName::Refund => "refund"@,
        WebhookPayloadItemName::Dispute => "dispute"@,
        WebhookPayloadItemName::Invoice => "invoice"@,
        WebhookPayloadItemName::Subscription => "subscription"@,
        WebhookPayloadItemName::Transfer => "transfer"@,
        WebhookPayloadItemName::VirtualAccount => "virtual_account"@,
        WebhookPayloadItemName::PaymentLink => "payment_link"@,
        WebhookPayloadItemName::FundAccountValidation => "fund_account.validation"@,
        WebhookPayloadItemName::Payout => "payout"@,
        WebhookPayloadItemName::PayoutLink => "payout_link"@,
        WebhookPayloadItemName::MerchantProduct => "merchant_product"@,
        WebhookPayloadItemName::Account => "account"@,
        WebhookPayloadItemName::PayoutDowntime => "payout.downtime"@,
        WebhookPayloadItemName::Transaction => "transaction"@,
    }
}

/// The payload item kind a wire name denotes, if any.
pub open spec fn spec_item_name_from(s: Seq<char>) -> Option<WebhookPayloadItemName> {
    if s == "order"@ {
        Some(WebhookPayloadItemName::Order)
    } else if s == "payment"@ {
        Some(WebhookPayloadItemName::Payment)
    } else if s == "refund"@ {
        Some(WebhookPayloadItemName::Refund)
    } else if s == "dispute"@ {
        Some(WebhookPayloadItemName::Dispute)
    } else if s == "invoice"@ {
        Some(WebhookPayloadItemName::Invoice)
    } else if s == "subscription"@ {
        Some(WebhookPayloadItemName::Subscription)
    } else if s == "transfer"@ {
        Some(WebhookPayloadItemName::Transfer)
    } else if s == "virtual_account"@ {
        Some(WebhookPayloadItemName::VirtualAccount)
    } else if s == "payment_link"@ {
        Some(WebhookPayloadItemName::PaymentLink)
    } else if s == "fund_account.validation"@ {
        Some(WebhookPayloadItemName::FundAccountValidation)
    } else if s == "payout"@ {
        Some(WebhookPayloadItemName::Payout)
    } else if s == "payout_link"@ {
        Some(WebhookPayloadItemName::PayoutLink)
    } else if s == "merchant_product"@ {
        Some(WebhookPayloadItemName::MerchantProduct)
    } else if s == "account"@ {
        Some(WebhookPayloadItemName::Account)
    } else if s == "payout.downtime"@ {
        Some(WebhookPayloadItemName::PayoutDowntime)
    } else if s == "transaction"@ {
        Some(WebhookPayloadItemName::Transaction)
    } else {
        None
    }
}

impl WebhookPayloadItemName {
    /// The wire name of this payload item kind.
    pub fn as_str(&self) -> (r: &'static str)
        ensures
            r@ == item_name_code(*self),
    {
        match self {
            WebhookPayloadItemName::Order => "order",
            WebhookPayloadItemName::Payment => "payment",
            WebhookPayloadItemName::Refund => "refund",
            WebhookPayloadItemName::Dispute => "dispute",
            WebhookPayloadItemName::Invoice => "invoice",
            WebhookPayloadItemName::Subscription => "subscription",
            WebhookPayloadItemName::Transfer => "transfer",
            WebhookPayloadItemName::VirtualAccount => "virtual_account",
            WebhookPayloadItemName::PaymentLink => "payment_link",
            WebhookPayloadItemName::FundAccountValidation => "fund_account.validation",
            WebhookPayloadItemName::Payout => "payout",
            WebhookPayloadItemName::PayoutLink => "payout_link",
            WebhookPayloadItemName::MerchantProduct => "merchant_product",
            WebhookPayloadItemName::Account => "account",
            WebhookPayloadItemName::PayoutDowntime => "payout.downtime",
            WebhookPayloadItemName::Transaction => "transaction",
        }
    }

    /// Accepts exactly the wire names of the payload item kinds.
    pub fn parse(s: &str) -> (r: Option<WebhookPayloadItemName>)
        ensures
            r == spec_item_name_from(s@),
    {
        if crate::strutil::str_eq(s, "order") {
            Some(WebhookPayloadItemName::Order)
        } else if crate::strutil::str_eq(s, "payment") {
            Some(WebhookPayloadItemName::Payment)
        } else if crate::strutil::str_eq(s, "refund") {
            Some(WebhookPayloadItemName::Refund)
        } else if crate::strutil::str_eq(s, "dispute") {
            Some(WebhookPayloadItemName::Dispute)
        } else if crate::strutil::str_eq(s, "invoice") {
            Some(WebhookPayloadItemName::Invoice)
        } else if crate::strutil::str_eq(s, "subscription") {
            Some(WebhookPayloadItemName::Subscription)
        } else if crate::strutil::str_eq(s, "transfer") {
            Some(WebhookPayloadItemName::Transfer)
        } else if crate::strutil::str_eq(s, "virtual_account") {
            Some(WebhookPayloadItemName::VirtualAccount)
        } else if crate::strutil::str_eq(s, "payment_link") {
            Some(WebhookPayloadItemName::PaymentLink)
        } else if crate::strutil::str_eq(s, "fund_account.validation") {
            Some(WebhookPayloadItemName::FundAccountValidation)
        } else if crate::strutil::str_eq(s, "payout") {
            Some(WebhookPayloadItemName::Payout)
        } else if crate::strutil::str_eq(s, "payout_link") {
            Some(WebhookPayloadItemName::PayoutLink)
        } else if crate::strutil::str_eq(s, "merchant_product") {
            Some(WebhookPayloadItemName::MerchantProduct)
        } else if crate::strutil::str_eq(s, "account") {
            Some(WebhookPayloadItemName::Account)
        } else if crate::strutil::str_eq(s, "payout.downtime") {
            Some(WebhookPayloadItemName::PayoutDowntime)
        } else if crate::strutil::str_eq(s, "transaction") {
            Some(WebhookPayloadItemName::Transaction)
        } else {
            None
        }
    }
}

/// One entity carried in a delivery.  An order body decodes to its
/// typed form; any other body is kept as the raw value, the documented
/// fallback for payload kinds without a typed decode here.
#[derive(Clone, Debug)]
pub enum WebhookPayloadItem {
    Order(Order),
    Other(JsonValue),
}

/// The mathematical content of a [`WebhookPayloadItem`].
pub ghost enum PayloadItemModel {
    Order(OrderModel),
    Other(JVal),
}

impl WebhookPayloadItem {
    pub open spec fn model(self) -> PayloadItemModel {
        match self {
            WebhookPayloadItem::Order(o) => PayloadItemModel::Order(o.model()),
            WebhookPayloadItem::Other(v) => PayloadItemModel::Other(v@),
        }
    }
}

/// What a payload entity decodes to: the typed order where the body
/// has the order shape, the raw value otherwise.
pub open spec fn sp_payload_item(v: JVal) -> PayloadItemModel {
    match sp_order(v) {
        Some(m) => PayloadItemModel::Order(m),
        None => PayloadItemModel::Other(v),
    }
}

/// One payload entry: the entity, and the service's weakly-structured
/// `data` value, kept raw because its schema is not settled upstream.
#[derive(Clone, Debug)]
pub struct WebhookPayload {
    pub entity: WebhookPayloadItem,
    pub data: Option<JsonValue>,
}

/// The mathematical content of a [`WebhookPayload`].
pub ghost struct WebhookPayloadModel {
    pub entity: PayloadItemModel,
    pub data: Option<JVal>,
}

impl WebhookPayload {
    pub open spec fn model(self) -> WebhookPayloadModel {
        WebhookPayloadModel {
            entity: self.entity.model(),
            data: match self.data {
                Some(v) => Some(v@),
                None => None,
            },
        }
    }
}

/// What one payload entry decodes to: an object with an `entity`
/// member; `data` absent or `null` counts as absent.
pub open spec fn sp_payload(v: JVal) -> Option<WebhookPayloadModel> {
    match v {
        JVal::Obj(m) => match obj_get(m, "entity"@) {
            Some(ev) => Some(
                WebhookPayloadModel {
                    entity: sp_payload_item(ev),
                    data: match obj_get(m, "data"@) {
                        None => None,
                        Some(JVal::Null) => None,
                        Some(d) => Some(d),
                    },
                },
            ),
            None => None,
        },
        _ => None,
    }
}

fn decode_payload(v: &JsonValue) -> (r: Option<WebhookPayload>)
    ensures
        match (r, sp_payload(v@)) {
            (Some(p), Some(m)) => p.model() == m,
            (None, None) => true,
            _ => false,
        },
{
    if !(v matches JsonValue::Obj(_)) {
        return None;
    }
    let entity = match v.get_member("entity") {
        Some(ev) => match Order::from_json(ev) {
            Some(o) => WebhookPayloadItem::Order(o),
            None => WebhookPayloadItem::Other(ev.clone()),
        },
        None => { return None },
    };
    let data = match v.get_member("data") {
        None => None,
        Some(JsonValue::Null) => None,
        Some(d) => Some(d.clone()),
    };
    Some(WebhookPayload { entity, data })
}

/// The names listed under `contains`, scanning from `i`: each element
/// must be the wire name of a payload item kind.
pub open spec fn sp_contains_from(items: Seq<JVal>, i: int) -> Option<Seq<WebhookPayloadItemName>>
    decreases items.len() - i,
{
    if !(0 <= i < items.len()) {
        Some(Seq::empty())
    } else {
        match items[i] {
            JVal::Str(s) => match spec_item_name_from(s) {
                Some(n) => match sp_contains_from(items, i + 1) {
                    Some(rest) => Some(seq![n] + rest),
                    None => None,
                },
                None => None,
            },
            _ => None,
        }
    }
}

fn decode_contains(items: &Vec<JsonValue>, i: usize) -> (r: Option<Vec<WebhookPayloadItemName>>)
    requires
        i <= items@.len(),
    ensures
        match (r, sp_contains_from(crate::json::views_of(items@), i as int)) {
            (Some(ns), Some(sn)) => ns@ == sn,
            (None, None) => true,
            _ => false,
        },
    decreases items@.len() - i,
{
    if i >= items.len() {
        Some(Vec::new())
    } else {
        proof {
            assert(crate::json::views_of(items@)[i as int] == items@[i as int].jval());
        }
        match &items[i] {
            JsonValue::Str(s) => match WebhookPayloadItemName::parse(s.as_str()) {
                Some(n) => match decode_contains(items, i + 1) {
                    Some(mut rest) => {
                        let ghost rpre = rest@;
                        rest.insert(0, n);
                        proof {
                            let sv = crate::json::views_of(items@);
                            let srest = sp_contains_from(sv, i as int + 1)->Some_0;
                            assert(rest@ =~= seq![n] + rpre);
                        }
                        Some(rest)
                    },
                    None => None,
                },
                None => None,
            },
            _ => None,
        }
    }
}

/// The payload entries, scanning from `i`: each key must name an item
/// kind and each value must decode as a payload entry.
pub open spec fn sp_payload_members_from(members: Seq<(Seq<char>, JVal)>, i: int) -> Option<
    Seq<(WebhookPayloadItemName, WebhookPayloadModel)>,
>
    decreases members.len() - i,
{
    if !(0 <= i < members.len()) {
        Some(Seq::empty())
    } else {
        match spec_item_name_from(members[i].0) {
            Some(n) => match sp_payload(members[i].1) {
                Some(p) => match sp_payload_members_from(members, i + 1) {
                    Some(rest) => Some(seq![(n, p)] + rest),
                    None => None,
                },
                None => None,
            },
            None => None,
        }
    }
}

/// The entries of a decoded payload map, key and model for each.
pub open spec fn payload_entry_views(
    entries: Seq<(WebhookPayloadItemName, WebhookPayload)>,
) -> Seq<(WebhookPayloadItemName, WebhookPayloadModel)> {
    Seq::new(
        entries.len(),
        |i: int|
            if 0 <= i < entries.len() {
                (entries[i].0, entries[i].1.model())
            } else {
                (WebhookPayloadItemName::Order, WebhookPayloadModel {
                    entity: PayloadItemModel::Other(JVal::Null),
                    data: None,
                })
            },
    )
}

fn decode_payload_members(members: &Vec<(String, JsonValue)>, i: usize) -> (r: Option<
    Vec<(WebhookPayloadItemName, WebhookPayload)>,
>)
    requires
        i <= members@.len(),
    ensures
        match (r, sp_payload_members_from(crate::json::member_views_of(members@), i as int)) {
            (Some(es), Some(se)) => payload_entry_views(es@) == se,
            (None, None) => true,
            _ => false,
        },
    decreases members@.len() - i,
{
    if i >= members.len() {
        let es: Vec<(WebhookPayloadItemName, WebhookPayload)> = Vec::new();
        proof {
            assert(payload_entry_views(es@) =~= Seq::<
                (WebhookPayloadItemName, WebhookPayloadModel),
            >::empty());
        }
        Some(es)
    } else {
        proof {
            let k = i as int;
            assert(crate::json::member_views_of(members@)[k] == (
                members@[k].0@,
                members@[k].1.jval(),
            ));
        }
        match WebhookPayloadItemName::parse(members[i].0.as_str()) {
            None => None,
            Some(n) => match decode_payload(&members[i].1) {
                None => None,
                Some(p) => match decode_payload_members(members, i + 1) {
                    None => None,
                    Some(mut rest) => {
                        let ghost rpre = rest@;
                        let ghost pm = p.model();
                        rest.insert(0, (n, p));
                        proof {
                            let mv = crate::json::member_views_of(members@);
                            let srest = sp_payload_members_from(mv, i as int + 1)->Some_0;
                            assert(rest@ =~= seq![(n, rest@[0].1)] + rpre);
                            assert forall|q: int| 0 <= q < srest.len() + 1 implies
                                payload_entry_views(rest@)[q] == (seq![(n, pm)] + srest)[q] by {
                                if q > 0 {
                                    assert(payload_entry_views(rpre)[q - 1] == srest[q - 1]);
                                }
                            }
                            assert(payload_entry_views(rest@) =~= seq![(n, pm)] + srest);
                        }
                        Some(rest)
                    },
                },
            },
        }
    }
}

/// A decoded delivery: who it concerns, what happened, and the
/// entities it carries.
#[derive(Clone, Debug)]
pub struct WebhookEvent {
    pub account_id: String,
    pub type_: EventType,
    pub contains: Vec<WebhookPayloadItemName>,
    pub payload: Vec<(WebhookPayloadItemName, WebhookPayload)>,
    pub created_at: Timestamp,
}

/// The mathematical content of a [`WebhookEvent`].
pub ghost struct WebhookEventModel {
    pub account_id: Seq<char>,
    pub type_: EventType,
    pub contains: Seq<WebhookPayloadItemName>,
    pub payload: Seq<(WebhookPayloadItemName, WebhookPayloadModel)>,
    pub created_at: int,
}

impl WebhookEvent {
    pub open spec fn model(self) -> WebhookEventModel {
        WebhookEventModel {
            account_id: self.account_id@,
            type_: self.type_,
            contains: self.contains@,
            payload: payload_entry_views(self.payload@),
            created_at: self.created_at as int,
        }
    }
}

/// What an event body decodes to: an object tagged `entity: "event"`,
/// with the event kind under `event`, the names under `contains`, the
/// entries under `payload` (an absent map counts as empty), and the
/// delivery time under `created_at`.
pub open spec fn sp_webhook_event(v: JVal) -> Option<WebhookEventModel> {
    match v {
        JVal::Obj(m) => {
            if crate::decode::sp_req_str(obj_get(m, "entity"@)) != Some("event"@) {
                None
            } else {
                match (crate::decode::sp_req_str(obj_get(m, "account_id"@)), (
                match crate::decode::sp_req_str(obj_get(m, "event"@)) {
                    Some(s) => spec_event_type_from(s),
                    None => None,
                }), (match obj_get(m, "contains"@) {
                    Some(JVal::Arr(items)) => sp_contains_from(items, 0),
                    _ => None,
                }), (match obj_get(m, "payload"@) {
                    None => Some(Seq::<(WebhookPayloadItemName, WebhookPayloadModel)>::empty()),
                    Some(JVal::Obj(pm)) => sp_payload_members_from(pm, 0),
                    Some(_) => None,
                }), crate::decode::sp_req_i64(obj_get(m, "created_at"@))) {
                    (Some(account_id), Some(type_), Some(contains), Some(payload), Some(
                        created_at,
                    )) => Some(
                        WebhookEventModel {
                            account_id,
                            type_,
                            contains,
                            payload,
                            created_at: created_at as int,
                        },
                    ),
                    _ => None,
                }
            }
        },
        _ => None,
    }
}

impl WebhookEvent {
    /// Decodes an event body; `None` exactly where the body does not
    /// have the event shape.
    pub fn from_json(v: &JsonValue) -> (r: Option<WebhookEvent>)
        ensures
            match (r, sp_webhook_event(v@)) {
                (Some(ev), Some(m)) => ev.model() == m,
                (None, None) => true,
                _ => false,
            },
    {
        if !(v matches JsonValue::Obj(_)) {
            return None;
        }
        match crate::decode::req_str(v.get_member("entity")) {
            Some(s) => if !crate::strutil::str_eq(s.as_str(), "event") {
                return None;
            },
            None => { return None },
        }
        let account_id = match crate::decode::req_str(v.get_member("account_id")) {
            Some(s) => s,
            None => { return None },
        };
        let type_ = match crate::decode::req_str(v.get_member("event")) {
            Some(s) => match EventType::parse(s.as_str()) {
                Some(t) => t,
                None => { return None },
            },
            None => { return None },
        };
        let contains = match v.get_member("contains") {
            Some(JsonValue::Arr(items)) => match decode_contains(items, 0) {
                Some(ns) => ns,
                None => { return None },
            },
            _ => { return None },
        };
        let payload = match v.get_member("payload") {
            None => Vec::new(),
            Some(JsonValue::Obj(pm)) => match decode_payload_members(pm, 0) {
                Some(es) => es,
                None => { return None },
            },
            Some(_) => { return None },
        };
        let created_at = match crate::decode::req_i64(v.get_member("created_at")) {
            Some(n) => n,
            None => { return None },
        };
        proof {
            if payload@.len() == 0 {
                assert(payload_entry_views(payload@) =~= Seq::<
                    (WebhookPayloadItemName, WebhookPayloadModel),
                >::empty());
            }
        }
        Some(WebhookEvent { account_id, type_, contains, payload, created_at })
    }
}

/// Who owns a webhook registration.
#[derive(Clone, Copy, Debug, PartialEq, Eq, Structural)]
pub enum WebhookOwnerType {
    Merchant,
}

/// A webhook registration as the service returns it.
#[derive(Clone, Debug, PartialEq, Eq)]
pub struct Webhook {
    pub id: String,
    pub created_at: Timestamp,
    pub updated_at: Option<Timestamp>,
    pub owner_id: AccountId,
    pub owner_type: WebhookOwnerType,
    pub url: String,
    pub secret: Option<String>,
    pub alert_email: Option<String>,
    pub secret_exists: bool,
    pub active: bool,
    pub events: Vec<EventType>,
}

/// The parameters of webhook registration.
#[derive(Clone, Debug, PartialEq, Eq, Default)]
pub struct CreateWebhook<'a> {
    pub url: &'a str,
    pub alert_email: Option<&'a str>,
    pub secret: Option<&'a str>,
    pub events: &'a [EventType],
}

/// The parameters of a webhook update.
#[derive(Clone, Debug, PartialEq, Eq, Default)]
pub struct UpdateWebhook<'a> {
    pub url: Option<&'a str>,
    pub events: &'a [EventType],
}

/// The wire form of a subscribed-events list: one name per event.
pub open spec fn events_jarr(events: Seq<EventType>) -> Seq<JVal> {
    Seq::new(
        events.len(),
        |i: int|
            if 0 <= i < events.len() {
                JVal::Str(event_type_code(events[i]))
            } else {
                JVal::Null
            },
    )
}

fn events_to_json(events: &[EventType]) -> (r: JsonValue)
    ensures
        r@ == JVal::Arr(events_jarr(events@)),
{
    let mut items: Vec<JsonValue> = Vec::new();
    let n = events.len();
    let mut i: usize = 0;
    while i < n
        invariant
            n == events@.len(),
            i <= n,
            items@.len() == i,
            forall|k: int| 0 <= k < i ==> #[trigger] items@[k]@ == JVal::Str(
                event_type_code(events@[k]),
            ),
        decreases n - i,
    {
        let e = vstd::slice::slice_index_get(events, i);
        items.push(JsonValue::Str(String::from_str(e.as_str())));
        i = i + 1;
        assert(items@[i - 1]@ == JVal::Str(event_type_code(events@[i - 1])));
    }
    proof {
        assert forall|k: int| 0 <= k < n implies crate::json::views_of(items@)[k] == events_jarr(
            events@,
        )[k] by {
            assert(items@[k]@ == JVal::Str(event_type_code(events@[k])));
        }
        assert(crate::json::views_of(items@) =~= events_jarr(events@));
    }
    JsonValue::Arr(items)
}

/// The wire form of an optional text field that the service wants
/// spelled out: the string, or an explicit `null`.
pub open spec fn opt_str_jval(o: Option<&str>) -> JVal {
    match o {
        Some(s) => JVal::Str(s@),
        None => JVal::Null,
    }
}

/// The members webhook registration serializes to, in declaration
/// order; absent options travel as `null`.
pub open spec fn create_webhook_members(c: CreateWebhook) -> Seq<(Seq<char>, JVal)> {
    seq![
        ("url"@, JVal::Str(c.url@)),
        ("alert_email"@, opt_str_jval(c.alert_email)),
        ("secret"@, opt_str_jval(c.secret)),
        ("events"@, JVal::Arr(events_jarr(c.events@))),
    ]
}

impl<'a> CreateWebhook<'a> {
    /// Serializes the registration parameters as their JSON body.
    pub fn to_json(&self) -> (r: JsonValue)
        ensures
            r@ == JVal::Obj(create_webhook_members(*self)),
    {
        let mut members: Vec<(String, JsonValue)> = Vec::new();
        members.push((String::from_str("url"), JsonValue::Str(self.url.to_owned())));
        members.push(
            (
                String::from_str("alert_email"),
                match self.alert_email {
                    Some(s) => JsonValue::Str(s.to_owned()),
                    None => JsonValue::Null,
                },
            ),
        );
        members.push(
            (
                String::from_str("secret"),
                match self.secret {
                    Some(s) => JsonValue::Str(s.to_owned()),
                    None => JsonValue::Null,
                },
            ),
        );
        members.push((String::from_str("events"), events_to_json(self.events)));
        proof {
            assert(crate::json::member_views_of(members@) =~= create_webhook_members(*self));
        }
        JsonValue::Obj(members)
    }
}

/// The members a webhook update serializes to; an absent URL travels
/// as `null`.
pub open spec fn update_webhook_members(c: UpdateWebhook) -> Seq<(Seq<char>, JVal)> {
    seq![("url"@, opt_str_jval(c.url)), ("events"@, JVal::Arr(events_jarr(c.events@)))]
}

impl<'a> UpdateWebhook<'a> {
    /// Serializes the update parameters as their JSON body.
    pub fn to_json(&self) -> (r: JsonValue)
        ensures
            r@ == JVal::Obj(update_webhook_members(*self)),
    {
        let mut members: Vec<(String, JsonValue)> = Vec::new();
        members.push(
            (
                String::from_str("url"),
                match self.url {
                    Some(s) => JsonValue::Str(s.to_owned()),
                    None => JsonValue::Null,
                },
            ),
        );
        members.push((String::from_str("events"), events_to_json(self.events)));
        proof {
            assert(crate::json::member_views_of(members@) =~= update_webhook_members(*self));
        }
        JsonValue::Obj(members)
    }
}

impl Webhook {
    /// Authenticates a delivery and decodes it.  The signature is
    /// recomputed over the raw body under the shared secret and must
    /// match the received one exactly; only then is the body read, so
    /// no field of an unauthenticated body is ever surfaced.
    pub fn construct_event(payload: &str, sig: &str, secret: &str) -> (r: Result<
        WebhookEvent,
        WebhookError,
    >)
        ensures
            (r matches Err(e) && e == WebhookError::BadSignature) <==> sig@
                != spec_webhook_signature(payload.spec_bytes(), secret.spec_bytes()),
            sig@ == spec_webhook_signature(payload.spec_bytes(), secret.spec_bytes())
                ==> match crate::parse::sp_json(payload@) {
                Some(v) => match sp_webhook_event(v) {
                    Some(m) => r matches Ok(ev) && ev.model() == m,
                    None => r matches Err(e) && e matches WebhookError::ParseError(_),
                },
                None => r matches Err(e) && e matches WebhookError::ParseError(_),
            },
    {
        let expected = crate::util::generate_webhook_signature(payload, secret);
        if !crate::strutil::str_eq(sig, expected.as_str()) {
            return Err(WebhookError::BadSignature);
        }
        match crate::parse::parse_json(payload) {
            None => Err(WebhookError::ParseError(String::from_str("body is not valid JSON"))),
            Some(v) => match WebhookEvent::from_json(&v) {
                Some(ev) => Ok(ev),
                None => Err(
                    WebhookError::ParseError(
                        String::from_str("body does not have the event shape"),
                    ),
                ),
            },
        }
    }

    /// The request webhook registration sends: a POST to
    /// `/accounts/{id}/webhooks` on API version `v2`.
    pub fn create_request(account_id: &AccountId, params: &CreateWebhook<'_>) -> (r: RequestParams)
        ensures
            r.url@ == "/accounts/"@ + account_id@ + "/webhooks"@,
            r.version matches Some(ver) && ver@ == "v2"@,
            r.data matches Some(d) && d@ == JVal::Obj(create_webhook_members(*params)),
    {
        let mut url = String::from_str("/accounts/");
        url.append(account_id.as_str());
        url.append("/webhooks");
        RequestParams {
            url,
            version: Some(String::from_str("v2")),
            data: Some(params.to_json()),
        }
    }

    /// The request a webhook fetch sends: a GET of
    /// `/accounts/{id}/webhooks/{webhook_id}` on the default version.
    pub fn fetch_request(account_id: &AccountId, webhook_id: &str) -> (r: RequestParams)
        ensures
            r.url@ == "/accounts/"@ + account_id@ + "/webhooks/"@ + webhook_id@,
            r.version is None,
            r.data is None,
    {
        let mut url = String::from_str("/accounts/");
        url.append(account_id.as_str());
        url.append("/webhooks/");
        url.append(webhook_id);
        RequestParams { url, version: None, data: None }
    }

    /// The request a webhook listing sends: a GET of
    /// `/accounts/{id}/webhooks` on `v2`, with the filter as query
    /// payload.
    pub fn list_request(account_id: &AccountId, filter: Option<&Filter>) -> (r: RequestParams)
        ensures
            r.url@ == "/accounts/"@ + account_id@ + "/webhooks"@,
            r.version matches Some(ver) && ver@ == "v2"@,
            match filter {
                Some(f) => r.data matches Some(d) && d@ == JVal::Obj(
                    crate::common::filter_members(*f),
                ),
                None => r.data is None,
            },
    {
        let mut url = String::from_str("/accounts/");
        url.append(account_id.as_str());
        url.append("/webhooks");
        RequestParams {
            url,
            version: Some(String::from_str("v2")),
            data: match filter {
                Some(f) => Some(f.to_json()),
                None => None,
            },
        }
    }

    /// The request a webhook update sends: a PATCH of
    /// `/accounts/{id}/webhooks/{webhook_id}` on `v2`.
    pub fn update_request(
        account_id: &AccountId,
        webhook_id: &str,
        params: &UpdateWebhook<'_>,
    ) -> (r: RequestParams)
        ensures
            r.url@ == "/accounts/"@ + account_id@ + "/webhooks/"@ + webhook_id@,
            r.version matches Some(ver) && ver@ == "v2"@,
            r.data matches Some(d) && d@ == JVal::Obj(update_webhook_members(*params)),
    {
        let mut url = String::from_str("/accounts/");
        url.append(account_id.as_str());
        url.append("/webhooks/");
        url.append(webhook_id);
        RequestParams {
            url,
            version: Some(String::from_str("v2")),
            data: Some(params.to_json()),
        }
    }

    /// The request a webhook removal sends: a DELETE of
    /// `/accounts/{id}/webhooks/{webhook_id}` on `v2`.
    pub fn delete_request(account_id: &AccountId, webhook_id: &str) -> (r: RequestParams)
        ensures
            r.url@ == "/accounts/"@ + account_id@ + "/webhooks/"@ + webhook_id@,
            r.version matches Some(ver) && ver@ == "v2"@,
            r.data is None,
    {
        let mut url = String::from_str("/accounts/");
        url.append(account_id.as_str());
        url.append("/webhooks/");
        url.append(webhook_id);
        RequestParams { url, version: Some(String::from_str("v2")), data: None }
    }
}

} // verus!
