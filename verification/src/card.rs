//! Card entities and their classification enums.

use vstd::prelude::*;

use crate::json::{JVal, JsonValue};

use crate::api::RequestParams;

use crate::customer::Customer;
use crate::ids::CardId;

verus! {

#[derive(Clone, Debug, PartialEq, Eq)]
pub enum CardNetwork {
    MasterCard,
    Visa,
    RuPay,
    AmericanExpress,
    DinersClub,
    BajajFinserv,
    Maestro,
    JCB,
    UnionPay,
    Unknown,
}

#[derive(Clone, Debug, PartialEq, Eq)]
pub enum CardTypeExtended {
    Credit,
    Debit,
    Prepaid,
    Unknown,
}

#[derive(Clone, Debug, PartialEq, Eq)]
pub enum CardType {
    Credit,
    Debit,
}

#[derive(Clone, Debug, PartialEq, Eq)]
pub enum CardSubType {
    Customer,
    Business,
    Unknown,
}

#[derive(Clone, Debug, PartialEq, Eq)]
pub struct Card {
    pub id: CardId,
    pub name: String,
    pub last4: String,
    pub network: CardNetwork,
    pub type_: CardTypeExtended,
    pub issuer: Option<String>,
    pub emi: bool,
    pub sub_type: CardSubType,
}


impl Card {
    /// The request a card fetch sends: a GET of `/cards/{id}`.
    pub fn fetch_request(card_id: &CardId) -> (r: RequestParams)
        ensures
            r.url@ == "/cards/"@ + card_id@,
            r.version is None,
            r.data is None,
    {
        let mut url = String::from_str("/cards/");
        url.append(card_id.as_str());
        RequestParams { url, version: None, data: None }
    }
}


/// The card network a wire name denotes, if any.
pub open spec fn spec_card_network_from(s: Seq<char>) -> Option<CardNetwork> {
    if s == "MasterCard"@ {
        Some(CardNetwork::MasterCard)
    } else if s == "Visa"@ {
        Some(CardNetwork::Visa)
    } else if s == "RuPay"@ {
        Some(CardNetwork::RuPay)
    } else if s == "American Express"@ {
        Some(CardNetwork::AmericanExpress)
    } else if s == "Diners Club"@ {
        Some(CardNetwork::DinersClub)
    } else if s == "Bajaj Finserv"@ {
        Some(CardNetwork::BajajFinserv)
    } else if s == "Maestro"@ {
        Some(CardNetwork::Maestro)
    } else if s == "JCB"@ {
        Some(CardNetwork::JCB)
    } else if s == "Union Pay"@ {
        Some(CardNetwork::UnionPay)
    } else if s == "unknown"@ {
        Some(CardNetwork::Unknown)
    } else {
        None
    }
}

impl CardNetwork {
    /// Accepts exactly the wire names of the networks.
    pub fn parse(s: &str) -> (r: Option<CardNetwork>)
        ensures
            r == spec_card_network_from(s@),
    {
        if crate::strutil::str_eq(s, "MasterCard") {
            Some(CardNetwork::MasterCard)
        } else if crate::strutil::str_eq(s, "Visa") {
            Some(CardNetwork::Visa)
        } else if crate::strutil::str_eq(s, "RuPay") {
            Some(CardNetwork::RuPay)
        } else if crate::strutil::str_eq(s, "American Express") {
            Some(CardNetwork::AmericanExpress)
        } else if crate::strutil::str_eq(s, "Diners Club") {
            Some(CardNetwork::DinersClub)
        } else if crate::strutil::str_eq(s, "Bajaj Finserv") {
            Some(CardNetwork::BajajFinserv)
        } else if crate::strutil::str_eq(s, "Maestro") {
            Some(CardNetwork::Maestro)
        } else if crate::strutil::str_eq(s, "JCB") {
            Some(CardNetwork::JCB)
        } else if crate::strutil::str_eq(s, "Union Pay") {
            Some(CardNetwork::UnionPay)
        } else if crate::strutil::str_eq(s, "unknown") {
            Some(CardNetwork::Unknown)
        } else {
            None
        }
    }
}

/// The card kind a wire name denotes, if any.
pub open spec fn spec_card_type_extended_from(s: Seq<char>) -> Option<CardTypeExtended> {
    if s == "credit"@ {
        Some(CardTypeExtended::Credit)
    } else if s == "debit"@ {
        Some(CardTypeExtended::Debit)
    } else if s == "prepaid"@ {
        Some(CardTypeExtended::Prepaid)
    } else if s == "unknown"@ {
        Some(CardTypeExtended::Unknown)
    } else {
        None
    }
}

impl CardTypeExtended {
    /// Accepts exactly the wire names of the card kinds.
    pub fn parse(s: &str) -> (r: Option<CardTypeExtended>)
        ensures
            r == spec_card_type_extended_from(s@),
    {
        if crate::strutil::str_eq(s, "credit") {
            Some(CardTypeExtended::Credit)
        } else if crate::strutil::str_eq(s, "debit") {
            Some(CardTypeExtended::Debit)
        } else if crate::strutil::str_eq(s, "prepaid") {
            Some(CardTypeExtended::Prepaid)
        } else if crate::strutil::str_eq(s, "unknown") {
            Some(CardTypeExtended::Unknown)
        } else {
            None
        }
    }
}

/// The holder kind a wire name denotes, if any.
pub open spec fn spec_card_sub_type_from(s: Seq<char>) -> Option<CardSubType> {
    if s == "customer"@ {
        Some(CardSubType::Customer)
    } else if s == "business"@ {
        Some(CardSubType::Business)
    } else if s == "unknown"@ {
        Some(CardSubType::Unknown)
    } else {
        None
    }
}

impl CardSubType {
    /// Accepts exactly the wire names of the holder kinds.
    pub fn parse(s: &str) -> (r: Option<CardSubType>)
        ensures
            r == spec_card_sub_type_from(s@),
    {
        if crate::strutil::str_eq(s, "customer") {
            Some(CardSubType::Customer)
        } else if crate::strutil::str_eq(s, "business") {
            Some(CardSubType::Business)
        } else if crate::strutil::str_eq(s, "unknown") {
            Some(CardSubType::Unknown)
        } else {
            None
        }
    }
}

/// The mathematical content of a [`Card`].
pub ghost struct CardModel {
    pub id: Seq<char>,
    pub name: Seq<char>,
    pub last4: Seq<char>,
    pub network: CardNetwork,
    pub type_: CardTypeExtended,
    pub issuer: Option<Seq<char>>,
    pub emi: bool,
    pub sub_type: CardSubType,
}

impl Card {
    pub open spec fn model(self) -> CardModel {
        CardModel {
            id: self.id@,
            name: self.name@,
            last4: self.last4@,
            network: self.network,
            type_: self.type_,
            issuer: crate::error::opt_view(self.issuer),
            emi: self.emi,
            sub_type: self.sub_type,
        }
    }
}

/// What a card body decodes to.  The `entity` tag must read `card`
/// and the id must carry its prefix.
pub open spec fn sp_card(v: JVal) -> Option<CardModel> {
    match v {
        JVal::Obj(m) => {
            if crate::decode::sp_req_str(crate::json::obj_get(m, "entity"@)) != Some("card"@) {
                None
            } else {
                match (crate::decode::sp_req_str(crate::json::obj_get(m, "id"@)),
                crate::decode::sp_req_str(crate::json::obj_get(m, "name"@)),
                crate::decode::sp_req_str(crate::json::obj_get(m, "last4"@)), (
                match crate::decode::sp_req_str(crate::json::obj_get(m, "network"@)) {
                    Some(s) => spec_card_network_from(s),
                    None => None,
                })) {
                    (Some(id), Some(name), Some(last4), Some(network)) => {
                        match ((match crate::decode::sp_req_str(crate::json::obj_get(m, "type"@)) {
                            Some(s) => spec_card_type_extended_from(s),
                            None => None,
                        }), crate::error::sp_opt_str(crate::json::obj_get(m, "issuer"@)),
                        crate::decode::sp_req_bool(crate::json::obj_get(m, "emi"@)), (
                        match crate::decode::sp_req_str(crate::json::obj_get(m, "sub_type"@)) {
                            Some(s) => spec_card_sub_type_from(s),
                            None => None,
                        })) {
                            (Some(type_), Some(issuer), Some(emi), Some(sub_type)) => {
                                if crate::strutil::spec_is_prefix("card_"@, id) {
                                    Some(
                                        CardModel {
                                            id,
                                            name,
                                            last4,
                                            network,
                                            type_,
                                            issuer,
                                            emi,
                                            sub_type,
                                        },
                                    )
                                } else {
                                    None
                                }
                            },
                            _ => None,
                        }
                    },
                    _ => None,
                }
            }
        },
        _ => None,
    }
}

impl Card {
    /// Decodes a card body; `None` exactly where the body does not
    /// have the card shape.
    pub fn from_json(v: &JsonValue) -> (r: Option<Card>)
        ensures
            match (r, sp_card(v@)) {
                (Some(c), Some(m)) => c.model() == m,
                (None, None) => true,
                _ => false,
            },
    {
        if !(v matches JsonValue::Obj(_)) {
            return None;
        }
        match crate::decode::req_str(v.get_member("entity")) {
            Some(s) => if !crate::strutil::str_eq(s.as_str(), "card") {
                return None;
            },
            None => { return None },
        }
        let id = match crate::decode::req_str(v.get_member("id")) {
            Some(s) => match CardId::parse(s.as_str()) {
                Ok(id) => id,
                Err(_) => { return None },
            },
            None => { return None },
        };
        let name = match crate::decode::req_str(v.get_member("name")) {
            Some(s) => s,
            None => { return None },
        };
        let last4 = match crate::decode::req_str(v.get_member("last4")) {
            Some(s) => s,
            None => { return None },
        };
        let network = match crate::decode::req_str(v.get_member("network")) {
            Some(s) => match CardNetwork::parse(s.as_str()) {
                Some(n) => n,
                None => { return None },
            },
            None => { return None },
        };
        let type_ = match crate::decode::req_str(v.get_member("type")) {
            Some(s) => match CardTypeExtended::parse(s.as_str()) {
                Some(t) => t,
                None => { return None },
            },
            None => { return None },
        };
        let issuer = match crate::error::opt_str_member(v, "issuer") {
            Some(o) => o,
            None => { return None },
        };
        let emi = match crate::decode::req_bool(v.get_member("emi")) {
            Some(b) => b,
            None => { return None },
        };
        let sub_type = match crate::decode::req_str(v.get_member("sub_type")) {
            Some(s) => match CardSubType::parse(s.as_str()) {
                Some(t) => t,
                None => { return None },
            },
            None => { return None },
        };
        Some(Card { id, name, last4, network, type_, issuer, emi, sub_type })
    }

    /// Reads a whole card response body: the error shape wins, any
    /// other body must decode as a card.
    pub fn decode_response(body: &str) -> (r: crate::error::RazorpayResult<Card>)
        ensures
            match crate::parse::sp_json(body@) {
                None => r matches Err(e) && e is SerializationError,
                Some(v) => match crate::api::sp_envelope(v) {
                    crate::api::SpEnvelope::Failure(m) => r matches Err(
                        crate::error::RazorpayError::ApiError(e),
                    ) && e.model() == m,
                    crate::api::SpEnvelope::Success(w) => match sp_card(w) {
                        Some(m) => r matches Ok(c) && c.model() == m,
                        None => r matches Err(e) && e is SerializationError,
                    },
                    crate::api::SpEnvelope::Malformed => r matches Err(e)
                        && e is SerializationError,
                },
            },
    {
        match crate::api::decode_response(body) {
            Err(e) => Err(e),
            Ok(v) => match Card::from_json(&v) {
                Some(c) => Ok(c),
                None => Err(
                    crate::error::RazorpayError::SerializationError(
                        String::from_str("response body does not have the card shape"),
                    ),
                ),
            },
        }
    }
}

} // verus!
