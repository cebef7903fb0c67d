//! Line items as they appear on invoices.

use vstd::prelude::*;

use crate::common::Currency;
use crate::ids::LineItemId;
use crate::invoice::Invoice;

verus! {

#[derive(Clone, Debug, PartialEq, Eq)]
pub enum LineItemType {
    Invoice,
}

#[derive(Clone, Debug, PartialEq, Eq)]
pub struct LineItem {
    pub id: LineItemId,
    pub item_id: Option<String>,
    pub name: String,
    pub description: Option<String>,
    pub amount: u64,
    pub currency: Currency,
    pub type_: LineItemType,
    pub quantity: u64,
}

} // verus!
