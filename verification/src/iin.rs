//! Issuer identification numbers and what they say about a card range.

use vstd::prelude::*;

use crate::api::RequestParams;

use crate::card::CardNetwork;
use crate::card::CardSubType;
use crate::card::CardTypeExtended;
use crate::entity::InnEntity;

verus! {

#[derive(Clone, Debug, PartialEq, Eq)]
pub enum InnAuthenticationType {
    ThreeDomainSecure,
    OneTimePassword,
}

#[derive(Clone, Debug, PartialEq, Eq)]
pub struct InnAuthenticationTypeOptions {
    pub type_: InnAuthenticationType,
}

#[derive(Clone, Debug, PartialEq, Eq)]
pub struct InnEmiOptions {
    pub available: bool,
}

#[derive(Clone, Debug, PartialEq, Eq)]
pub struct InnRecurringOptions {
    pub available: bool,
}

#[derive(Clone, Debug, PartialEq, Eq)]
pub struct Inn {
    pub inn: String,
    pub entity: InnEntity,
    pub network: CardNetwork,
    pub type_: CardTypeExtended,
    pub sub_type: CardSubType,
    pub international: bool,
    pub issuer_code: String,
    pub issuer_name: String,
    pub emi: InnEmiOptions,
    pub recurring: InnRecurringOptions,
    pub authentication_types: Vec<InnAuthenticationTypeOptions>,
}


impl Inn {
    /// The request an issuer-number fetch sends: a GET of
    /// `/inns/{token}`.
    pub fn fetch_request(inn_id: &str) -> (r: RequestParams)
        ensures
            r.url@ == "/inns/"@ + inn_id@,
            r.version is None,
            r.data is None,
    {
        let mut url = String::from_str("/inns/");
        url.append(inn_id);
        RequestParams { url, version: None, data: None }
    }
}

} // verus!
