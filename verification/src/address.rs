//! Postal addresses as the service models them.

use vstd::prelude::*;

use crate::ids::AddressId;

verus! {

#[derive(Clone, Debug, PartialEq, Eq)]
pub enum AddressType {
    Billing,
    Shipping,
}

#[derive(Clone, Debug, PartialEq, Eq)]
pub struct Address {
    pub id: AddressId,
    pub type_: AddressType,
    pub primary: bool,
    pub line1: String,
    pub line2: Option<String>,
    pub city: String,
    pub zipcode: String,
    pub state: String,
    pub country: String,
}

} // verus!
