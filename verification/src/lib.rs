//! A typed client library for Razorpay's payment-processing API.
//!
//! The heart of the crate is the transport in [`api`]: it builds each
//! call's URL from the base, a version segment and a resource path,
//! flattens read payloads into query pairs or renders write payloads
//! as JSON bodies, and decodes every response body through one
//! envelope rule — the error shape is tried first, and only a body
//! without an `error` member is a success.  Beside it stands the
//! webhook verifier in [`webhook`]: a delivery's signature is
//! recomputed over the raw body under the shared secret, and nothing
//! of the body is surfaced unless the signatures match.  Both rest on
//! the crate's own JSON model in [`json`] and its grammar in
//! [`parse`].  The resource modules hold the wire shapes of the
//! service's entities and the requests their calls send; the actual
//! HTTP exchange is left to the caller, who sends a prepared request
//! and hands the body text back for decoding.

pub mod json;
pub mod parse;
pub mod strutil;
pub mod num;
pub mod entity;
pub mod ids;
pub mod common;
pub mod util;
pub mod error;
pub mod query;
pub mod decode;
pub mod api;
pub mod razorpay;

pub mod account;
pub mod addon;
pub mod address;
pub mod card;
pub mod customer;
pub mod dispute;
pub mod document;
pub mod iin;
pub mod invoice;
pub mod item;
pub mod line_item;
pub mod offer;
pub mod order;
pub mod payment;
pub mod plan;
pub mod refund;
pub mod settlement;
pub mod subscription;
pub mod webhook;

pub use common::{Collection, Country, Currency, Filter, Object};
pub use ids::{
    AccountId, AddonId, AddressId, AdjustmentId, BatchId, CardId, CustomerId, DisputeId,
    DocumentId, DowntimeId, InstantSettlementId, InstantSettlementPayoutId, InvoiceId, ItemId,
    LineItemId, OfferId, OrderId, ParseIdError, PaymentId, PlanId, RefundId, SettlementId,
    SubscriptionId, TransferId,
};
pub use json::JsonValue;
pub use razorpay::{Razorpay, VERSION};
