//! Shared wire-level types: currencies, countries, the string-map
//! record, list envelopes and the common list filter.

use vstd::prelude::*;

use crate::entity::CollectionEntity;
use crate::json::{JVal, JsonValue};
use crate::num::dec_str;

verus! {

/// A record of string keys and string values, as the service sends and
/// receives free-form `notes`-like maps.
pub type Object = Vec<(String, String)>;

/// A moment in time as seconds since the Unix epoch.
pub type Timestamp = i64;

/// The entries of a string map, key and value views in order.
pub open spec fn object_views(o: Seq<(String, String)>) -> Seq<(Seq<char>, Seq<char>)> {
    Seq::new(
        o.len(),
        |i: int|
            if 0 <= i < o.len() {
                (o[i].0@, o[i].1@)
            } else {
                (Seq::empty(), Seq::empty())
            },
    )
}

/// The currencies the service quotes amounts in.
#[derive(Clone, Copy, Debug, PartialEq, Eq, Structural)]
pub enum Currency {
    AED,
    ALL,
    AMD,
    ARS,
    AUD,
    AWG,
    BBD,
    BDT,
    BMD,
    BND,
    BOB,
    BSD,
    BWP,
    BZD,
    CAD,
    CHF,
    CNY,
    COP,
    CRC,
    CUP,
    CZK,
    DKK,
    DOP,
    DZD,
    EGP,
    ETB,
    EUR,
    FJD,
    GBP,
    GHS,
    GIP,
    GMD,
    GTQ,
    GYD,
    HKD,
    HNL,
    HRK,
    HTG,
    HUF,
    IDR,
    ILS,
    INR,
    JMD,
    KES,
    KGS,
    KHR,
    KYD,
    KZT,
    LAK,
    LKR,
    LRD,
    LSL,
    MAD,
    MDL,
    MKD,
    MMK,
    MNT,
    MOP,
    MUR,
    MVR,
    MWK,
    MXN,
    MYR,
    NAD,
    NGN,
    NIO,
    NOK,
    NPR,
    NZD,
    PEN,
    PGK,
    PHP,
    PKR,
    QAR,
    RUB,
    SAR,
    SCR,
    SEK,
    SGD,
    SLL,
    SOS,
    SSP,
    SVC,
    SZL,
    THB,
    TTD,
    TZS,
    USD,
    UYU,
    UZS,
    YER,
    ZAR,
    TRY,
}

/// The wire code of a currency.
pub open spec fn currency_code(c: Currency) -> Seq<char> {
    match c {
        Currency::AED => "AED"@,
        Currency::ALL => "ALL"@,
        Currency::AMD => "AMD"@,
        Currency::ARS => "ARS"@,
        Currency::AUD => "AUD"@,
        Currency::AWG => "AWG"@,
        Currency::BBD => "BBD"@,
        Currency::BDT => "BDT"@,
        Currency::BMD => "BMD"@,
        Currency::BND => "BND"@,
        Currency::BOB => "BOB"@,
        Currency::BSD => "BSD"@,
        Currency::BWP => "BWP"@,
        Currency::BZD => "BZD"@,
        Currency::CAD => "CAD"@,
        Currency::CHF => "CHF"@,
        Currency::CNY => "CNY"@,
        Currency::COP => "COP"@,
        Currency::CRC => "CRC"@,
        Currency::CUP => "CUP"@,
        Currency::CZK => "CZK"@,
        Currency::DKK => "DKK"@,
        Currency::DOP => "DOP"@,
        Currency::DZD => "DZD"@,
        Currency::EGP => "EGP"@,
        Currency::ETB => "ETB"@,
        Currency::EUR => "EUR"@,
        Currency::FJD => "FJD"@,
        Currency::GBP => "GBP"@,
        Currency::GHS => "GHS"@,
        Currency::GIP => "GIP"@,
        Currency::GMD => "GMD"@,
        Currency::GTQ => "GTQ"@,
        Currency::GYD => "GYD"@,
        Currency::HKD => "HKD"@,
        Currency::HNL => "HNL"@,
        Currency::HRK => "HRK"@,
        Currency::HTG => "HTG"@,
        Currency::HUF => "HUF"@,
        Currency::IDR => "IDR"@,
        Currency::ILS => "ILS"@,
        Currency::INR => "INR"@,
        Currency::JMD => "JMD"@,
        Currency::KES => "KES"@,
        Currency::KGS => "KGS"@,
        Currency::KHR => "KHR"@,
        Currency::KYD => "KYD"@,
        Currency::KZT => "KZT"@,
        Currency::LAK => "LAK"@,
        Currency::LKR => "LKR"@,
        Currency::LRD => "LRD"@,
        Currency::LSL => "LSL"@,
        Currency::MAD => "MAD"@,
        Currency::MDL => "MDL"@,
        Currency::MKD => "MKD"@,
        Currency::MMK => "MMK"@,
        Currency::MNT => "MNT"@,
        Currency::MOP => "MOP"@,
        Currency::MUR => "MUR"@,
        Currency::MVR => "MVR"@,
        Currency::MWK => "MWK"@,
        Currency::MXN => "MXN"@,
        Currency::MYR => "MYR"@,
        Currency::NAD => "NAD"@,
        Currency::NGN => "NGN"@,
        Currency::NIO => "NIO"@,
        Currency::NOK => "NOK"@,
        Currency::NPR => "NPR"@,
        Currency::NZD => "NZD"@,
        Currency::PEN => "PEN"@,
        Currency::PGK => "PGK"@,
        Currency::PHP => "PHP"@,
        Currency::PKR => "PKR"@,
        Currency::QAR => "QAR"@,
        Currency::RUB => "RUB"@,
        Currency::SAR => "SAR"@,
        Currency::SCR => "SCR"@,
        Currency::SEK => "SEK"@,
        Currency::SGD => "SGD"@,
        Currency::SLL => "SLL"@,
        Currency::SOS => "SOS"@,
        Currency::SSP => "SSP"@,
        Currency::SVC => "SVC"@,
        Currency::SZL => "SZL"@,
        Currency::THB => "THB"@,
        Currency::TTD => "TTD"@,
        Currency::TZS => "TZS"@,
        Currency::USD => "USD"@,
        Currency::UYU => "UYU"@,
        Currency::UZS => "UZS"@,
        Currency::YER => "YER"@,
        Currency::ZAR => "ZAR"@,
        Currency::TRY => "TRY"@,
    }
}

/// The currency a wire code names, if any.
pub open spec fn spec_currency_from(s: Seq<char>) -> Option<Currency> {
    if s == "AED"@ {
        Some(Currency::AED)
    } else if s == "ALL"@ {
        Some(Currency::ALL)
    } else if s == "AMD"@ {
        Some(Currency::AMD)
    } else if s == "ARS"@ {
        Some(Currency::ARS)
    } else if s == "AUD"@ {
        Some(Currency::AUD)
    } else if s == "AWG"@ {
        Some(Currency::AWG)
    } else if s == "BBD"@ {
        Some(Currency::BBD)
    } else if s == "BDT"@ {
        Some(Currency::BDT)
    } else if s == "BMD"@ {
        Some(Currency::BMD)
    } else if s == "BND"@ {
        Some(Currency::BND)
    } else if s == "BOB"@ {
        Some(Currency::BOB)
    } else if s == "BSD"@ {
        Some(Currency::BSD)
    } else if s == "BWP"@ {
        Some(Currency::BWP)
    } else if s == "BZD"@ {
        Some(Currency::BZD)
    } else if s == "CAD"@ {
        Some(Currency::CAD)
    } else if s == "CHF"@ {
        Some(Currency::CHF)
    } else if s == "CNY"@ {
        Some(Currency::CNY)
    } else if s == "COP"@ {
        Some(Currency::COP)
    } else if s == "CRC"@ {
        Some(Currency::CRC)
    } else if s == "CUP"@ {
        Some(Currency::CUP)
    } else if s == "CZK"@ {
        Some(Currency::CZK)
    } else if s == "DKK"@ {
        Some(Currency::DKK)
    } else if s == "DOP"@ {
        Some(Currency::DOP)
    } else if s == "DZD"@ {
        Some(Currency::DZD)
    } else if s == "EGP"@ {
        Some(Currency::EGP)
    } else if s == "ETB"@ {
        Some(Currency::ETB)
    } else if s == "EUR"@ {
        Some(Currency::EUR)
    } else if s == "FJD"@ {
        Some(Currency::FJD)
    } else if s == "GBP"@ {
        Some(Currency::GBP)
    } else if s == "GHS"@ {
        Some(Currency::GHS)
    } else if s == "GIP"@ {
        Some(Currency::GIP)
    } else if s == "GMD"@ {
        Some(Currency::GMD)
    } else if s == "GTQ"@ {
        Some(Currency::GTQ)
    } else if s == "GYD"@ {
        Some(Currency::GYD)
    } else if s == "HKD"@ {
        Some(Currency::HKD)
    } else if s == "HNL"@ {
        Some(Currency::HNL)
    } else if s == "HRK"@ {
        Some(Currency::HRK)
    } else if s == "HTG"@ {
        Some(Currency::HTG)
    } else if s == "HUF"@ {
        Some(Currency::HUF)
    } else if s == "IDR"@ {
        Some(Currency::IDR)
    } else if s == "ILS"@ {
        Some(Currency::ILS)
    } else if s == "INR"@ {
        Some(Currency::INR)
    } else if s == "JMD"@ {
        Some(Currency::JMD)
    } else if s == "KES"@ {
        Some(Currency::KES)
    } else if s == "KGS"@ {
        Some(Currency::KGS)
    } else if s == "KHR"@ {
        Some(Currency::KHR)
    } else if s == "KYD"@ {
        Some(Currency::KYD)
    } else if s == "KZT"@ {
        Some(Currency::KZT)
    } else if s == "LAK"@ {
        Some(Currency::LAK)
    } else if s == "LKR"@ {
        Some(Currency::LKR)
    } else if s == "LRD"@ {
        Some(Currency::LRD)
    } else if s == "LSL"@ {
        Some(Currency::LSL)
    } else if s == "MAD"@ {
        Some(Currency::MAD)
    } else if s == "MDL"@ {
        Some(Currency::MDL)
    } else if s == "MKD"@ {
        Some(Currency::MKD)
    } else if s == "MMK"@ {
        Some(Currency::MMK)
    } else if s == "MNT"@ {
        Some(Currency::MNT)
    } else if s == "MOP"@ {
        Some(Currency::MOP)
    } else if s == "MUR"@ {
        Some(Currency::MUR)
    } else if s == "MVR"@ {
        Some(Currency::MVR)
    } else if s == "MWK"@ {
        Some(Currency::MWK)
    } else if s == "MXN"@ {
        Some(Currency::MXN)
    } else if s == "MYR"@ {
        Some(Currency::MYR)
    } else if s == "NAD"@ {
        Some(Currency::NAD)
    } else if s == "NGN"@ {
        Some(Currency::NGN)
    } else if s == "NIO"@ {
        Some(Currency::NIO)
    } else if s == "NOK"@ {
        Some(Currency::NOK)
    } else if s == "NPR"@ {
        Some(Currency::NPR)
    } else if s == "NZD"@ {
        Some(Currency::NZD)
    } else if s == "PEN"@ {
        Some(Currency::PEN)
    } else if s == "PGK"@ {
        Some(Currency::PGK)
    } else if s == "PHP"@ {
        Some(Currency::PHP)
    } else if s == "PKR"@ {
        Some(Currency::PKR)
    } else if s == "QAR"@ {
        Some(Currency::QAR)
    } else if s == "RUB"@ {
        Some(Currency::RUB)
    } else if s == "SAR"@ {
        Some(Currency::SAR)
    } else if s == "SCR"@ {
        Some(Currency::SCR)
    } else if s == "SEK"@ {
        Some(Currency::SEK)
    } else if s == "SGD"@ {
        Some(Currency::SGD)
    } else if s == "SLL"@ {
        Some(Currency::SLL)
    } else if s == "SOS"@ {
        Some(Currency::SOS)
    } else if s == "SSP"@ {
        Some(Currency::SSP)
    } else if s == "SVC"@ {
        Some(Currency::SVC)
    } else if s == "SZL"@ {
        Some(Currency::SZL)
    } else if s == "THB"@ {
        Some(Currency::THB)
    } else if s == "TTD"@ {
        Some(Currency::TTD)
    } else if s == "TZS"@ {
        Some(Currency::TZS)
    } else if s == "USD"@ {
        Some(Currency::USD)
    } else if s == "UYU"@ {
        Some(Currency::UYU)
    } else if s == "UZS"@ {
        Some(Currency::UZS)
    } else if s == "YER"@ {
        Some(Currency::YER)
    } else if s == "ZAR"@ {
        Some(Currency::ZAR)
    } else if s == "TRY"@ {
        Some(Currency::TRY)
    } else {
        None
    }
}

impl Currency {
    /// The three-letter wire code.
    pub fn as_str(&self) -> (r: &'static str)
        ensures
            r@ == currency_code(*self),
    {
        match self {
            Currency::AED => "AED",
            Currency::ALL => "ALL",
            Currency::AMD => "AMD",
            Currency::ARS => "ARS",
            Currency::AUD => "AUD",
            Currency::AWG => "AWG",
            Currency::BBD => "BBD",
            Currency::BDT => "BDT",
            Currency::BMD => "BMD",
            Currency::BND => "BND",
            Currency::BOB => "BOB",
            Currency::BSD => "BSD",
            Currency::BWP => "BWP",
            Currency::BZD => "BZD",
            Currency::CAD => "CAD",
            Currency::CHF => "CHF",
            Currency::CNY => "CNY",
            Currency::COP => "COP",
            Currency::CRC => "CRC",
            Currency::CUP => "CUP",
            Currency::CZK => "CZK",
            Currency::DKK => "DKK",
            Currency::DOP => "DOP",
            Currency::DZD => "DZD",
            Currency::EGP => "EGP",
            Currency::ETB => "ETB",
            Currency::EUR => "EUR",
            Currency::FJD => "FJD",
            Currency::GBP => "GBP",
            Currency::GHS => "GHS",
            Currency::GIP => "GIP",
            Currency::GMD => "GMD",
            Currency::GTQ => "GTQ",
            Currency::GYD => "GYD",
            Currency::HKD => "HKD",
            Currency::HNL => "HNL",
            Currency::HRK => "HRK",
            Currency::HTG => "HTG",
            Currency::HUF => "HUF",
            Currency::IDR => "IDR",
            Currency::ILS => "ILS",
            Currency::INR => "INR",
            Currency::JMD => "JMD",
            Currency::KES => "KES",
            Currency::KGS => "KGS",
            Currency::KHR => "KHR",
            Currency::KYD => "KYD",
            Currency::KZT => "KZT",
            Currency::LAK => "LAK",
            Currency::LKR => "LKR",
            Currency::LRD => "LRD",
            Currency::LSL => "LSL",
            Currency::MAD => "MAD",
            Currency::MDL => "MDL",
            Currency::MKD => "MKD",
            Currency::MMK => "MMK",
            Currency::MNT => "MNT",
            Currency::MOP => "MOP",
            Currency::MUR => "MUR",
            Currency::MVR => "MVR",
            Currency::MWK => "MWK",
            Currency::MXN => "MXN",
            Currency::MYR => "MYR",
            Currency::NAD => "NAD",
            Currency::NGN => "NGN",
            Currency::NIO => "NIO",
            Currency::NOK => "NOK",
            Currency::NPR => "NPR",
            Currency::NZD => "NZD",
            Currency::PEN => "PEN",
            Currency::PGK => "PGK",
            Currency::PHP => "PHP",
            Currency::PKR => "PKR",
            Currency::QAR => "QAR",
            Currency::RUB => "RUB",
            Currency::SAR => "SAR",
            Currency::SCR => "SCR",
            Currency::SEK => "SEK",
            Currency::SGD => "SGD",
            Currency::SLL => "SLL",
            Currency::SOS => "SOS",
            Currency::SSP => "SSP",
            Currency::SVC => "SVC",
            Currency::SZL => "SZL",
            Currency::THB => "THB",
            Currency::TTD => "TTD",
            Currency::TZS => "TZS",
            Currency::USD => "USD",
            Currency::UYU => "UYU",
            Currency::UZS => "UZS",
            Currency::YER => "YER",
            Currency::ZAR => "ZAR",
            Currency::TRY => "TRY",
        }
    }

    /// Accepts exactly the three-letter wire codes.
    pub fn parse(s: &str) -> (r: Option<Currency>)
        ensures
            r == spec_currency_from(s@),
    {
        if crate::strutil::str_eq(s, "AED") {
            Some(Currency::AED)
        } else if crate::strutil::str_eq(s, "ALL") {
            Some(Currency::ALL)
        } else if crate::strutil::str_eq(s, "AMD") {
            Some(Currency::AMD)
        } else if crate::strutil::str_eq(s, "ARS") {
            Some(Currency::ARS)
        } else if crate::strutil::str_eq(s, "AUD") {
            Some(Currency::AUD)
        } else if crate::strutil::str_eq(s, "AWG") {
            Some(Currency::AWG)
        } else if crate::strutil::str_eq(s, "BBD") {
            Some(Currency::BBD)
        } else if crate::strutil::str_eq(s, "BDT") {
            Some(Currency::BDT)
        } else if crate::strutil::str_eq(s, "BMD") {
            Some(Currency::BMD)
        } else if crate::strutil::str_eq(s, "BND") {
            Some(Currency::BND)
        } else if crate::strutil::str_eq(s, "BOB") {
            Some(Currency::BOB)
        } else if crate::strutil::str_eq(s, "BSD") {
            Some(Currency::BSD)
        } else if crate::strutil::str_eq(s, "BWP") {
            Some(Currency::BWP)
        } else if crate::strutil::str_eq(s, "BZD") {
            Some(Currency::BZD)
        } else if crate::strutil::str_eq(s, "CAD") {
            Some(Currency::CAD)
        } else if crate::strutil::str_eq(s, "CHF") {
            Some(Currency::CHF)
        } else if crate::strutil::str_eq(s, "CNY") {
            Some(Currency::CNY)
        } else if crate::strutil::str_eq(s, "COP") {
            Some(Currency::COP)
        } else if crate::strutil::str_eq(s, "CRC") {
            Some(Currency::CRC)
        } else if crate::strutil::str_eq(s, "CUP") {
            Some(Currency::CUP)
        } else if crate::strutil::str_eq(s, "CZK") {
            Some(Currency::CZK)
        } else if crate::strutil::str_eq(s, "DKK") {
            Some(Currency::DKK)
        } else if crate::strutil::str_eq(s, "DOP") {
            Some(Currency::DOP)
        } else if crate::strutil::str_eq(s, "DZD") {
            Some(Currency::DZD)
        } else if crate::strutil::str_eq(s, "EGP") {
            Some(Currency::EGP)
        } else if crate::strutil::str_eq(s, "ETB") {
            Some(Currency::ETB)
        } else if crate::strutil::str_eq(s, "EUR") {
            Some(Currency::EUR)
        } else if crate::strutil::str_eq(s, "FJD") {
            Some(Currency::FJD)
        } else if crate::strutil::str_eq(s, "GBP") {
            Some(Currency::GBP)
        } else if crate::strutil::str_eq(s, "GHS") {
            Some(Currency::GHS)
        } else if crate::strutil::str_eq(s, "GIP") {
            Some(Currency::GIP)
        } else if crate::strutil::str_eq(s, "GMD") {
            Some(Currency::GMD)
        } else if crate::strutil::str_eq(s, "GTQ") {
            Some(Currency::GTQ)
        } else if crate::strutil::str_eq(s, "GYD") {
            Some(Currency::GYD)
        } else if crate::strutil::str_eq(s, "HKD") {
            Some(Currency::HKD)
        } else if crate::strutil::str_eq(s, "HNL") {
            Some(Currency::HNL)
        } else if crate::strutil::str_eq(s, "HRK") {
            Some(Currency::HRK)
        } else if crate::strutil::str_eq(s, "HTG") {
            Some(Currency::HTG)
        } else if crate::strutil::str_eq(s, "HUF") {
            Some(Currency::HUF)
        } else if crate::strutil::str_eq(s, "IDR") {
            Some(Currency::IDR)
        } else if crate::strutil::str_eq(s, "ILS") {
            Some(Currency::ILS)
        } else if crate::strutil::str_eq(s, "INR") {
            Some(Currency::INR)
        } else if crate::strutil::str_eq(s, "JMD") {
            Some(Currency::JMD)
        } else if crate::strutil::str_eq(s, "KES") {
            Some(Currency::KES)
        } else if crate::strutil::str_eq(s, "KGS") {
            Some(Currency::KGS)
        } else if crate::strutil::str_eq(s, "KHR") {
            Some(Currency::KHR)
        } else if crate::strutil::str_eq(s, "KYD") {
            Some(Currency::KYD)
        } else if crate::strutil::str_eq(s, "KZT") {
            Some(Currency::KZT)
        } else if crate::strutil::str_eq(s, "LAK") {
            Some(Currency::LAK)
        } else if crate::strutil::str_eq(s, "LKR") {
            Some(Currency::LKR)
        } else if crate::strutil::str_eq(s, "LRD") {
            Some(Currency::LRD)
        } else if crate::strutil::str_eq(s, "LSL") {
            Some(Currency::LSL)
        } else if crate::strutil::str_eq(s, "MAD") {
            Some(Currency::MAD)
        } else if crate::strutil::str_eq(s, "MDL") {
            Some(Currency::MDL)
        } else if crate::strutil::str_eq(s, "MKD") {
            Some(Currency::MKD)
        } else if crate::strutil::str_eq(s, "MMK") {
            Some(Currency::MMK)
        } else if crate::strutil::str_eq(s, "MNT") {
            Some(Currency::MNT)
        } else if crate::strutil::str_eq(s, "MOP") {
            Some(Currency::MOP)
        } else if crate::strutil::str_eq(s, "MUR") {
            Some(Currency::MUR)
        } else if crate::strutil::str_eq(s, "MVR") {
            Some(Currency::MVR)
        } else if crate::strutil::str_eq(s, "MWK") {
            Some(Currency::MWK)
        } else if crate::strutil::str_eq(s, "MXN") {
            Some(Currency::MXN)
        } else if crate::strutil::str_eq(s, "MYR") {
            Some(Currency::MYR)
        } else if crate::strutil::str_eq(s, "NAD") {
            Some(Currency::NAD)
        } else if crate::strutil::str_eq(s, "NGN") {
            Some(Currency::NGN)
        } else if crate::strutil::str_eq(s, "NIO") {
            Some(Currency::NIO)
        } else if crate::strutil::str_eq(s, "NOK") {
            Some(Currency::NOK)
        } else if crate::strutil::str_eq(s, "NPR") {
            Some(Currency::NPR)
        } else if crate::strutil::str_eq(s, "NZD") {
            Some(Currency::NZD)
        } else if crate::strutil::str_eq(s, "PEN") {
            Some(Currency::PEN)
        } else if crate::strutil::str_eq(s, "PGK") {
            Some(Currency::PGK)
        } else if crate::strutil::str_eq(s, "PHP") {
            Some(Currency::PHP)
        } else if crate::strutil::str_eq(s, "PKR") {
            Some(Currency::PKR)
        } else if crate::strutil::str_eq(s, "QAR") {
            Some(Currency::QAR)
        } else if crate::strutil::str_eq(s, "RUB") {
            Some(Currency::RUB)
        } else if crate::strutil::str_eq(s, "SAR") {
            Some(Currency::SAR)
        } else if crate::strutil::str_eq(s, "SCR") {
            Some(Currency::SCR)
        } else if crate::strutil::str_eq(s, "SEK") {
            Some(Currency::SEK)
        } else if crate::strutil::str_eq(s, "SGD") {
            Some(Currency::SGD)
        } else if crate::strutil::str_eq(s, "SLL") {
            Some(Currency::SLL)
        } else if crate::strutil::str_eq(s, "SOS") {
            Some(Currency::SOS)
        } else if crate::strutil::str_eq(s, "SSP") {
            Some(Currency::SSP)
        } else if crate::strutil::str_eq(s, "SVC") {
            Some(Currency::SVC)
        } else if crate::strutil::str_eq(s, "SZL") {
            Some(Currency::SZL)
        } else if crate::strutil::str_eq(s, "THB") {
            Some(Currency::THB)
        } else if crate::strutil::str_eq(s, "TTD") {
            Some(Currency::TTD)
        } else if crate::strutil::str_eq(s, "TZS") {
            Some(Currency::TZS)
        } else if crate::strutil::str_eq(s, "USD") {
            Some(Currency::USD)
        } else if crate::strutil::str_eq(s, "UYU") {
            Some(Currency::UYU)
        } else if crate::strutil::str_eq(s, "UZS") {
            Some(Currency::UZS)
        } else if crate::strutil::str_eq(s, "YER") {
            Some(Currency::YER)
        } else if crate::strutil::str_eq(s, "ZAR") {
            Some(Currency::ZAR)
        } else if crate::strutil::str_eq(s, "TRY") {
            Some(Currency::TRY)
        } else {
            None
        }
    }
}

impl Default for Currency {
    /// The service quotes in Indian rupees unless told otherwise.
    fn default() -> (r: Currency)
        ensures
            r == Currency::INR,
    {
        Currency::INR
    }
}

/// The countries the service recognises in addresses and profiles.
#[derive(Clone, Copy, Debug, PartialEq, Eq, Structural)]
pub enum Country {
    BD,
    BE,
    BF,
    BG,
    BA,
    BB,
    WF,
    BL,
    BM,
    BN,
    BO,
    BH,
    BI,
    BJ,
    BT,
    JM,
    BV,
    BW,
    WS,
    BQ,
    BR,
    BS,
    JE,
    BY,
    BZ,
    RU,
    RW,
    RS,
    TL,
    RE,
    TM,
    TJ,
    RO,
    TK,
    GW,
    GU,
    GT,
    GS,
    GR,
    GQ,
    GP,
    JP,
    GY,
    GG,
    GF,
    GE,
    GD,
    GB,
    GA,
    SV,
    GN,
    GM,
    GL,
    GI,
    GH,
    OM,
    TN,
    JO,
    HR,
    HT,
    HU,
    HK,
    HN,
    HM,
    VE,
    PR,
    PS,
    PW,
    PT,
    SJ,
    PY,
    IQ,
    PA,
    PF,
    PG,
    PE,
    PK,
    PH,
    PN,
    PL,
    PM,
    ZM,
    EH,
    EE,
    EG,
    ZA,
    EC,
    IT,
    VN,
    SB,
    ET,
    SO,
    ZW,
    SA,
    ES,
    ER,
    ME,
    MD,
    MG,
    MF,
    MA,
    MC,
    UZ,
    MM,
    ML,
    MO,
    MN,
    MH,
    MK,
    MU,
    MT,
    MW,
    MV,
    MQ,
    MP,
    MS,
    MR,
    IM,
    UG,
    TZ,
    MY,
    MX,
    IL,
    FR,
    IO,
    SH,
    FI,
    FJ,
    FK,
    FM,
    FO,
    NI,
    NL,
    NO,
    NA,
    VU,
    NC,
    NE,
    NF,
    NG,
    NZ,
    NP,
    NR,
    NU,
    CK,
    XK,
    CI,
    CH,
    CO,
    CN,
    CM,
    CL,
    CC,
    CA,
    CG,
    CF,
    CD,
    CZ,
    CY,
    CX,
    CR,
    CW,
    CV,
    CU,
    SZ,
    SY,
    SX,
    KG,
    KE,
    SS,
    SR,
    KI,
    KH,
    KN,
    KM,
    ST,
    SK,
    KR,
    SI,
    KP,
    KW,
    SN,
    SM,
    SL,
    SC,
    KZ,
    KY,
    SG,
    SE,
    SD,
    DO,
    DM,
    DJ,
    DK,
    VG,
    DE,
    YE,
    DZ,
    US,
    UY,
    YT,
    UM,
    LB,
    LC,
    LA,
    TV,
    TW,
    TT,
    TR,
    LK,
    LI,
    LV,
    TO,
    LT,
    LU,
    LR,
    LS,
    TH,
    TF,
    TG,
    TD,
    TC,
    LY,
    VA,
    VC,
    AE,
    AD,
    AG,
    AF,
    AI,
    VI,
    IS,
    IR,
    AM,
    AL,
    AO,
    AQ,
    AS,
    AR,
    AU,
    AT,
    AW,
    IN,
    AX,
    AZ,
    IE,
    ID,
    UA,
    QA,
    MZ,
}

/// The two-letter wire code of a country.
pub open spec fn country_code(c: Country) -> Seq<char> {
    match c {
        Country::BD => "BD"@,
        Country::BE => "BE"@,
        Country::BF => "BF"@,
        Country::BG => "BG"@,
        Country::BA => "BA"@,
        Country::BB => "BB"@,
        Country::WF => "WF"@,
        Country::BL => "BL"@,
        Country::BM => "BM"@,
        Country::BN => "BN"@,
        Country::BO => "BO"@,
        Country::BH => "BH"@,
        Country::BI => "BI"@,
        Country::BJ => "BJ"@,
        Country::BT => "BT"@,
        Country::JM => "JM"@,
        Country::BV => "BV"@,
        Country::BW => "BW"@,
        Country::WS => "WS"@,
        Country::BQ => "BQ"@,
        Country::BR => "BR"@,
        Country::BS => "BS"@,
        Country::JE => "JE"@,
        Country::BY => "BY"@,
        Country::BZ => "BZ"@,
        Country::RU => "RU"@,
        Country::RW => "RW"@,
        Country::RS => "RS"@,
        Country::TL => "TL"@,
        Country::RE => "RE"@,
        Country::TM => "TM"@,
        Country::TJ => "TJ"@,
        Country::RO => "RO"@,
        Country::TK => "TK"@,
        Country::GW => "GW"@,
        Country::GU => "GU"@,
        Country::GT => "GT"@,
        Country::GS => "GS"@,
        Country::GR => "GR"@,
        Country::GQ => "GQ"@,
        Country::GP => "GP"@,
        Country::JP => "JP"@,
        Country::GY => "GY"@,
        Country::GG => "GG"@,
        Country::GF => "GF"@,
        Country::GE => "GE"@,
        Country::GD => "GD"@,
        Country::GB => "GB"@,
        Country::GA => "GA"@,
        Country::SV => "SV"@,
        Country::GN => "GN"@,
        Country::GM => "GM"@,
        Country::GL => "GL"@,
        Country::GI => "GI"@,
        Country::GH => "GH"@,
        Country::OM => "OM"@,
        Country::TN => "TN"@,
        Country::JO => "JO"@,
        Country::HR => "HR"@,
        Country::HT => "HT"@,
        Country::HU => "HU"@,
        Country::HK => "HK"@,
        Country::HN => "HN"@,
        Country::HM => "HM"@,
        Country::VE => "VE"@,
        Country::PR => "PR"@,
        Country::PS => "PS"@,
        Country::PW => "PW"@,
        Country::PT => "PT"@,
        Country::SJ => "SJ"@,
        Country::PY => "PY"@,
        Country::IQ => "IQ"@,
        Country::PA => "PA"@,
        Country::PF => "PF"@,
        Country::PG => "PG"@,
        Country::PE => "PE"@,
        Country::PK => "PK"@,
        Country::PH => "PH"@,
        Country::PN => "PN"@,
        Country::PL => "PL"@,
        Country::PM => "PM"@,
        Country::ZM => "ZM"@,
        Country::EH => "EH"@,
        Country::EE => "EE"@,
        Country::EG => "EG"@,
        Country::ZA => "ZA"@,
        Country::EC => "EC"@,
        Country::IT => "IT"@,
        Country::VN => "VN"@,
        Country::SB => "SB"@,
        Country::ET => "ET"@,
        Country::SO => "SO"@,
        Country::ZW => "ZW"@,
        Country::SA => "SA"@,
        Country::ES => "ES"@,
        Country::ER => "ER"@,
        Country::ME => "ME"@,
        Country::MD => "MD"@,
        Country::MG => "MG"@,
        Country::MF => "MF"@,
        Country::MA => "MA"@,
        Country::MC => "MC"@,
        Country::UZ => "UZ"@,
        Country::MM => "MM"@,
        Country::ML => "ML"@,
        Country::MO => "MO"@,
        Country::MN => "MN"@,
        Country::MH => "MH"@,
        Country::MK => "MK"@,
        Country::MU => "MU"@,
        Country::MT => "MT"@,
        Country::MW => "MW"@,
        Country::MV => "MV"@,
        Country::MQ => "MQ"@,
        Country::MP => "MP"@,
        Country::MS => "MS"@,
        Country::MR => "MR"@,
        Country::IM => "IM"@,
        Country::UG => "UG"@,
        Country::TZ => "TZ"@,
        Country::MY => "MY"@,
        Country::MX => "MX"@,
        Country::IL => "IL"@,
        Country::FR => "FR"@,
        Country::IO => "IO"@,
        Country::SH => "SH"@,
        Country::FI => "FI"@,
        Country::FJ => "FJ"@,
        Country::FK => "FK"@,
        Country::FM => "FM"@,
        Country::FO => "FO"@,
        Country::NI => "NI"@,
        Country::NL => "NL"@,
        Country::NO => "NO"@,
        Country::NA => "NA"@,
        Country::VU => "VU"@,
        Country::NC => "NC"@,
        Country::NE => "NE"@,
        Country::NF => "NF"@,
        Country::NG => "NG"@,
        Country::NZ => "NZ"@,
        Country::NP => "NP"@,
        Country::NR => "NR"@,
        Country::NU => "NU"@,
        Country::CK => "CK"@,
        Country::XK => "XK"@,
        Country::CI => "CI"@,
        Country::CH => "CH"@,
        Country::CO => "CO"@,
        Country::CN => "CN"@,
        Country::CM => "CM"@,
        Country::CL => "CL"@,
        Country::CC => "CC"@,
        Country::CA => "CA"@,
        Country::CG => "CG"@,
        Country::CF => "CF"@,
        Country::CD => "CD"@,
        Country::CZ => "CZ"@,
        Country::CY => "CY"@,
        Country::CX => "CX"@,
        Country::CR => "CR"@,
        Country::CW => "CW"@,
        Country::CV => "CV"@,
        Country::CU => "CU"@,
        Country::SZ => "SZ"@,
        Country::SY => "SY"@,
        Country::SX => "SX"@,
        Country::KG => "KG"@,
        Country::KE => "KE"@,
        Country::SS => "SS"@,
        Country::SR => "SR"@,
        Country::KI => "KI"@,
        Country::KH => "KH"@,
        Country::KN => "KN"@,
        Country::KM => "KM"@,
        Country::ST => "ST"@,
        Country::SK => "SK"@,
        Country::KR => "KR"@,
        Country::SI => "SI"@,
        Country::KP => "KP"@,
        Country::KW => "KW"@,
        Country::SN => "SN"@,
        Country::SM => "SM"@,
        Country::SL => "SL"@,
        Country::SC => "SC"@,
        Country::KZ => "KZ"@,
        Country::KY => "KY"@,
        Country::SG => "SG"@,
        Country::SE => "SE"@,
        Country::SD => "SD"@,
        Country::DO => "DO"@,
        Country::DM => "DM"@,
        Country::DJ => "DJ"@,
        Country::DK => "DK"@,
        Country::VG => "VG"@,
        Country::DE => "DE"@,
        Country::YE => "YE"@,
        Country::DZ => "DZ"@,
        Country::US => "US"@,
        Country::UY => "UY"@,
        Country::YT => "YT"@,
        Country::UM => "UM"@,
        Country::LB => "LB"@,
        Country::LC => "LC"@,
        Country::LA => "LA"@,
        Country::TV => "TV"@,
        Country::TW => "TW"@,
        Country::TT => "TT"@,
        Country::TR => "TR"@,
        Country::LK => "LK"@,
        Country::LI => "LI"@,
        Country::LV => "LV"@,
        Country::TO => "TO"@,
        Country::LT => "LT"@,
        Country::LU => "LU"@,
        Country::LR => "LR"@,
        Country::LS => "LS"@,
        Country::TH => "TH"@,
        Country::TF => "TF"@,
        Country::TG => "TG"@,
        Country::TD => "TD"@,
        Country::TC => "TC"@,
        Country::LY => "LY"@,
        Country::VA => "VA"@,
        Country::VC => "VC"@,
        Country::AE => "AE"@,
        Country::AD => "AD"@,
        Country::AG => "AG"@,
        Country::AF => "AF"@,
        Country::AI => "AI"@,
        Country::VI => "VI"@,
        Country::IS => "IS"@,
        Country::IR => "IR"@,
        Country::AM => "AM"@,
        Country::AL => "AL"@,
        Country::AO => "AO"@,
        Country::AQ => "AQ"@,
        Country::AS => "AS"@,
        Country::AR => "AR"@,
        Country::AU => "AU"@,
        Country::AT => "AT"@,
        Country::AW => "AW"@,
        Country::IN => "IN"@,
        Country::AX => "AX"@,
        Country::AZ => "AZ"@,
        Country::IE => "IE"@,
        Country::ID => "ID"@,
        Country::UA => "UA"@,
        Country::QA => "QA"@,
        Country::MZ => "MZ"@,
    }
}

impl Country {
    /// The two-letter wire code.
    pub fn as_str(&self) -> (r: &'static str)
        ensures
            r@ == country_code(*self),
    {
        match self {
            Country::BD => "BD",
            Country::BE => "BE",
            Country::BF => "BF",
            Country::BG => "BG",
            Country::BA => "BA",
            Country::BB => "BB",
            Country::WF => "WF",
            Country::BL => "BL",
            Country::BM => "BM",
            Country::BN => "BN",
            Country::BO => "BO",
            Country::BH => "BH",
            Country::BI => "BI",
            Country::BJ => "BJ",
            Country::BT => "BT",
            Country::JM => "JM",
            Country::BV => "BV",
            Country::BW => "BW",
            Country::WS => "WS",
            Country::BQ => "BQ",
            Country::BR => "BR",
            Country::BS => "BS",
            Country::JE => "JE",
            Country::BY => "BY",
            Country::BZ => "BZ",
            Country::RU => "RU",
            Country::RW => "RW",
            Country::RS => "RS",
            Country::TL => "TL",
            Country::RE => "RE",
            Country::TM => "TM",
            Country::TJ => "TJ",
            Country::RO => "RO",
            Country::TK => "TK",
            Country::GW => "GW",
            Country::GU => "GU",
            Country::GT => "GT",
            Country::GS => "GS",
            Country::GR => "GR",
            Country::GQ => "GQ",
            Country::GP => "GP",
            Country::JP => "JP",
            Country::GY => "GY",
            Country::GG => "GG",
            Country::GF => "GF",
            Country::GE => "GE",
            Country::GD => "GD",
            Country::GB => "GB",
            Country::GA => "GA",
            Country::SV => "SV",
            Country::GN => "GN",
            Country::GM => "GM",
            Country::GL => "GL",
            Country::GI => "GI",
            Country::GH => "GH",
            Country::OM => "OM",
            Country::TN => "TN",
            Country::JO => "JO",
            Country::HR => "HR",
            Country::HT => "HT",
            Country::HU => "HU",
            Country::HK => "HK",
            Country::HN => "HN",
            Country::HM => "HM",
            Country::VE => "VE",
            Country::PR => "PR",
            Country::PS => "PS",
            Country::PW => "PW",
            Country::PT => "PT",
            Country::SJ => "SJ",
            Country::PY => "PY",
            Country::IQ => "IQ",
            Country::PA => "PA",
            Country::PF => "PF",
            Country::PG => "PG",
            Country::PE => "PE",
            Country::PK => "PK",
            Country::PH => "PH",
            Country::PN => "PN",
            Country::PL => "PL",
            Country::PM => "PM",
            Country::ZM => "ZM",
            Country::EH => "EH",
            Country::EE => "EE",
            Country::EG => "EG",
            Country::ZA => "ZA",
            Country::EC => "EC",
            Country::IT => "IT",
            Country::VN => "VN",
            Country::SB => "SB",
            Country::ET => "ET",
            Country::SO => "SO",
            Country::ZW => "ZW",
            Country::SA => "SA",
            Country::ES => "ES",
            Country::ER => "ER",
            Country::ME => "ME",
            Country::MD => "MD",
            Country::MG => "MG",
            Country::MF => "MF",
            Country::MA => "MA",
            Country::MC => "MC",
            Country::UZ => "UZ",
            Country::MM => "MM",
            Country::ML => "ML",
            Country::MO => "MO",
            Country::MN => "MN",
            Country::MH => "MH",
            Country::MK => "MK",
            Country::MU => "MU",
            Country::MT => "MT",
            Country::MW => "MW",
            Country::MV => "MV",
            Country::MQ => "MQ",
            Country::MP => "MP",
            Country::MS => "MS",
            Country::MR => "MR",
            Country::IM => "IM",
            Country::UG => "UG",
            Country::TZ => "TZ",
            Country::MY => "MY",
            Country::MX => "MX",
            Country::IL => "IL",
            Country::FR => "FR",
            Country::IO => "IO",
            Country::SH => "SH",
            Country::FI => "FI",
            Country::FJ => "FJ",
            Country::FK => "FK",
            Country::FM => "FM",
            Country::FO => "FO",
            Country::NI => "NI",
            Country::NL => "NL",
            Country::NO => "NO",
            Country::NA => "NA",
            Country::VU => "VU",
            Country::NC => "NC",
            Country::NE => "NE",
            Country::NF => "NF",
            Country::NG => "NG",
            Country::NZ => "NZ",
            Country::NP => "NP",
            Country::NR => "NR",
            Country::NU => "NU",
            Country::CK => "CK",
            Country::XK => "XK",
            Country::CI => "CI",
            Country::CH => "CH",
            Country::CO => "CO",
            Country::CN => "CN",
            Country::CM => "CM",
            Country::CL => "CL",
            Country::CC => "CC",
            Country::CA => "CA",
            Country::CG => "CG",
            Country::CF => "CF",
            Country::CD => "CD",
            Country::CZ => "CZ",
            Country::CY => "CY",
            Country::CX => "CX",
            Country::CR => "CR",
            Country::CW => "CW",
            Country::CV => "CV",
            Country::CU => "CU",
            Country::SZ => "SZ",
            Country::SY => "SY",
            Country::SX => "SX",
            Country::KG => "KG",
            Country::KE => "KE",
            Country::SS => "SS",
            Country::SR => "SR",
            Country::KI => "KI",
            Country::KH => "KH",
            Country::KN => "KN",
            Country::KM => "KM",
            Country::ST => "ST",
            Country::SK => "SK",
            Country::KR => "KR",
            Country::SI => "SI",
            Country::KP => "KP",
            Country::KW => "KW",
            Country::SN => "SN",
            Country::SM => "SM",
            Country::SL => "SL",
            Country::SC => "SC",
            Country::KZ => "KZ",
            Country::KY => "KY",
            Country::SG => "SG",
            Country::SE => "SE",
            Country::SD => "SD",
            Country::DO => "DO",
            Country::DM => "DM",
            Country::DJ => "DJ",
            Country::DK => "DK",
            Country::VG => "VG",
            Country::DE => "DE",
            Country::YE => "YE",
            Country::DZ => "DZ",
            Country::US => "US",
            Country::UY => "UY",
            Country::YT => "YT",
            Country::UM => "UM",
            Country::LB => "LB",
            Country::LC => "LC",
            Country::LA => "LA",
            Country::TV => "TV",
            Country::TW => "TW",
            Country::TT => "TT",
            Country::TR => "TR",
            Country::LK => "LK",
            Country::LI => "LI",
            Country::LV => "LV",
            Country::TO => "TO",
            Country::LT => "LT",
            Country::LU => "LU",
            Country::LR => "LR",
            Country::LS => "LS",
            Country::TH => "TH",
            Country::TF => "TF",
            Country::TG => "TG",
            Country::TD => "TD",
            Country::TC => "TC",
            Country::LY => "LY",
            Country::VA => "VA",
            Country::VC => "VC",
            Country::AE => "AE",
            Country::AD => "AD",
            Country::AG => "AG",
            Country::AF => "AF",
            Country::AI => "AI",
            Country::VI => "VI",
            Country::IS => "IS",
            Country::IR => "IR",
            Country::AM => "AM",
            Country::AL => "AL",
            Country::AO => "AO",
            Country::AQ => "AQ",
            Country::AS => "AS",
            Country::AR => "AR",
            Country::AU => "AU",
            Country::AT => "AT",
            Country::AW => "AW",
            Country::IN => "IN",
            Country::AX => "AX",
            Country::AZ => "AZ",
            Country::IE => "IE",
            Country::ID => "ID",
            Country::UA => "UA",
            Country::QA => "QA",
            Country::MZ => "MZ",
        }
    }
}

impl Default for Country {
    /// The service is domiciled in India.
    fn default() -> (r: Country)
        ensures
            r == Country::IN,
    {
        Country::IN
    }
}

/// A page of entities as the service lists them.
#[derive(Clone, Debug, PartialEq, Eq)]
pub struct Collection<T> {
    pub entity: CollectionEntity,
    pub count: usize,
    pub items: Vec<T>,
}

/// The members a string map serializes to: one string member per
/// entry, in order.
pub open spec fn object_members(o: Seq<(String, String)>) -> Seq<(Seq<char>, JVal)> {
    Seq::new(
        o.len(),
        |i: int|
            if 0 <= i < o.len() {
                (o[i].0@, JVal::Str(o[i].1@))
            } else {
                (Seq::empty(), JVal::Null)
            },
    )
}

/// Serializes a string map as a JSON object, entries in order.
pub fn object_to_json(o: &Object) -> (r: JsonValue)
    ensures
        r@ == JVal::Obj(object_members(o@)),
{
    let mut members: Vec<(String, JsonValue)> = Vec::new();
    let n = o.len();
    let mut i: usize = 0;
    while i < n
        invariant
            n == o@.len(),
            i <= n,
            members@.len() == i,
            forall|k: int| 0 <= k < i ==> #[trigger] members@[k].0@ == o@[k].0@ && members@[k].1@
                == JVal::Str(o@[k].1@),
        decreases n - i,
    {
        members.push((o[i].0.clone(), JsonValue::Str(o[i].1.clone())));
        i = i + 1;
        assert(members@[i - 1].0@ == o@[i - 1].0@);
        assert(members@[i - 1].1@ == JVal::Str(o@[i - 1].1@));
    }
    proof {
        assert forall|k: int| 0 <= k < n implies crate::json::member_views_of(members@)[k]
            == object_members(o@)[k] by {
            assert(members@[k].0@ == o@[k].0@);
            assert(members@[k].1@ == JVal::Str(o@[k].1@));
        }
        assert(crate::json::member_views_of(members@) =~= object_members(o@));
    }
    JsonValue::Obj(members)
}

/// The common listing window: a time range and a count/skip page.
#[derive(Clone, Debug, PartialEq, Eq, Default)]
pub struct Filter {
    pub from: Option<Timestamp>,
    pub to: Option<Timestamp>,
    pub count: Option<usize>,
    pub skip: Option<usize>,
}

/// The members a filter serializes to: one numeric member per present
/// field, absent fields left out.
pub open spec fn filter_members(f: Filter) -> Seq<(Seq<char>, JVal)> {
    (match f.from {
        Some(t) => seq![("from"@, JVal::Num(dec_str(t as int)))],
        None => Seq::empty(),
    }) + (match f.to {
        Some(t) => seq![("to"@, JVal::Num(dec_str(t as int)))],
        None => Seq::empty(),
    }) + (match f.count {
        Some(c) => seq![("count"@, JVal::Num(dec_str(c as int)))],
        None => Seq::empty(),
    }) + (match f.skip {
        Some(c) => seq![("skip"@, JVal::Num(dec_str(c as int)))],
        None => Seq::empty(),
    })
}

impl Filter {
    /// Serializes the filter as a flat record of numbers.
    pub fn to_json(&self) -> (r: JsonValue)
        ensures
            r@ == JVal::Obj(filter_members(*self)),
    {
        let mut members: Vec<(String, JsonValue)> = Vec::new();
        if let Some(t) = self.from {
            members.push((String::from_str("from"), JsonValue::Num(crate::num::i64_to_string(t))));
        }
        if let Some(t) = self.to {
            members.push((String::from_str("to"), JsonValue::Num(crate::num::i64_to_string(t))));
        }
        if let Some(c) = self.count {
            members.push((
                String::from_str("count"),
                JsonValue::Num(crate::num::u64_to_string(c as u64)),
            ));
        }
        if let Some(c) = self.skip {
            members.push((
                String::from_str("skip"),
                JsonValue::Num(crate::num::u64_to_string(c as u64)),
            ));
        }
        let r = JsonValue::Obj(members);
        proof {
            let mv = crate::json::member_views_of(members@);
            let fm = filter_members(*self);
            assert(mv.len() == fm.len());
            assert forall|k: int| 0 <= k < mv.len() implies mv[k] == fm[k] by {
                assert(mv[k] == (members@[k].0@, members@[k].1.jval()));
            }
            assert(mv =~= fm);
        }
        r
    }
}


/// The wire form of a list of plain strings.
pub open spec fn str_list_jarr(items: Seq<&str>) -> Seq<JVal> {
    Seq::new(
        items.len(),
        |i: int|
            if 0 <= i < items.len() {
                JVal::Str(items[i]@)
            } else {
                JVal::Null
            },
    )
}

/// Serializes a list of plain strings as a JSON array.
pub fn str_list_to_json(items: &[&str]) -> (r: JsonValue)
    ensures
        r@ == JVal::Arr(str_list_jarr(items@)),
{
    let mut out: Vec<JsonValue> = Vec::new();
    let n = items.len();
    let mut i: usize = 0;
    while i < n
        invariant
            n == items@.len(),
            i <= n,
            out@.len() == i,
            forall|k: int| 0 <= k < i ==> #[trigger] out@[k]@ == JVal::Str(items@[k]@),
        decreases n - i,
    {
        let s = *vstd::slice::slice_index_get(items, i);
        out.push(JsonValue::Str(s.to_owned()));
        i = i + 1;
        assert(out@[i - 1]@ == JVal::Str(items@[i - 1]@));
    }
    proof {
        assert forall|k: int| 0 <= k < n implies crate::json::views_of(out@)[k] == str_list_jarr(
            items@,
        )[k] by {
            assert(out@[k]@ == JVal::Str(items@[k]@));
        }
        assert(crate::json::views_of(out@) =~= str_list_jarr(items@));
    }
    JsonValue::Arr(out)
}

/// One optional string member, or nothing.
pub open spec fn seg_str(key: Seq<char>, o: Option<&str>) -> Seq<(Seq<char>, JVal)> {
    match o {
        Some(s) => seq![(key, JVal::Str(s@))],
        None => Seq::empty(),
    }
}

/// One optional boolean member written as the number one or zero, or
/// nothing.
pub open spec fn seg_bool_int(key: Seq<char>, o: Option<bool>) -> Seq<(Seq<char>, JVal)> {
    match o {
        Some(b) => seq![(key, JVal::Num(if b { "1"@ } else { "0"@ }))],
        None => Seq::empty(),
    }
}

/// One optional boolean member, or nothing.
pub open spec fn seg_bool(key: Seq<char>, o: Option<bool>) -> Seq<(Seq<char>, JVal)> {
    match o {
        Some(b) => seq![(key, JVal::Bool(b))],
        None => Seq::empty(),
    }
}

/// One optional numeric member, or nothing.
pub open spec fn seg_i64(key: Seq<char>, o: Option<i64>) -> Seq<(Seq<char>, JVal)> {
    match o {
        Some(n) => seq![(key, JVal::Num(dec_str(n as int)))],
        None => Seq::empty(),
    }
}

/// One optional currency member, or nothing.
pub open spec fn seg_currency(key: Seq<char>, o: Option<Currency>) -> Seq<(Seq<char>, JVal)> {
    match o {
        Some(c) => seq![(key, JVal::Str(currency_code(c)))],
        None => Seq::empty(),
    }
}

/// One optional string-map member, or nothing.
pub open spec fn seg_notes(key: Seq<char>, o: Option<Object>) -> Seq<(Seq<char>, JVal)> {
    match o {
        Some(m) => seq![(key, JVal::Obj(object_members(m@)))],
        None => Seq::empty(),
    }
}

pub(crate) fn push_seg_str(members: &mut Vec<(String, JsonValue)>, key: &str, o: Option<&str>)
    ensures
        crate::json::member_views_of(final(members)@) == crate::json::member_views_of(
            old(members)@,
        ) + seg_str(key@, o),
{
    match o {
        Some(s) => {
            let ghost pre = members@;
            members.push((key.to_owned(), JsonValue::Str(s.to_owned())));
            proof {
                assert(crate::json::member_views_of(members@) =~= crate::json::member_views_of(
                    pre,
                ) + seg_str(key@, o));
            }
        },
        None => {
            proof {
                assert(crate::json::member_views_of(members@) =~= crate::json::member_views_of(
                    members@,
                ) + seg_str(key@, o));
            }
        },
    }
}

pub(crate) fn push_seg_bool_int(members: &mut Vec<(String, JsonValue)>, key: &str, o: Option<bool>)
    ensures
        crate::json::member_views_of(final(members)@) == crate::json::member_views_of(
            old(members)@,
        ) + seg_bool_int(key@, o),
{
    match o {
        Some(b) => {
            let ghost pre = members@;
            members.push(
                (key.to_owned(), JsonValue::Num(String::from_str(if b { "1" } else { "0" }))),
            );
            proof {
                assert(crate::json::member_views_of(members@) =~= crate::json::member_views_of(
                    pre,
                ) + seg_bool_int(key@, o));
            }
        },
        None => {
            proof {
                assert(crate::json::member_views_of(members@) =~= crate::json::member_views_of(
                    members@,
                ) + seg_bool_int(key@, o));
            }
        },
    }
}

pub(crate) fn push_seg_bool(members: &mut Vec<(String, JsonValue)>, key: &str, o: Option<bool>)
    ensures
        crate::json::member_views_of(final(members)@) == crate::json::member_views_of(
            old(members)@,
        ) + seg_bool(key@, o),
{
    match o {
        Some(b) => {
            let ghost pre = members@;
            members.push((key.to_owned(), JsonValue::Bool(b)));
            proof {
                assert(crate::json::member_views_of(members@) =~= crate::json::member_views_of(
                    pre,
                ) + seg_bool(key@, o));
            }
        },
        None => {
            proof {
                assert(crate::json::member_views_of(members@) =~= crate::json::member_views_of(
                    members@,
                ) + seg_bool(key@, o));
            }
        },
    }
}

pub(crate) fn push_seg_i64(members: &mut Vec<(String, JsonValue)>, key: &str, o: Option<i64>)
    ensures
        crate::json::member_views_of(final(members)@) == crate::json::member_views_of(
            old(members)@,
        ) + seg_i64(key@, o),
{
    match o {
        Some(n) => {
            let ghost pre = members@;
            members.push((key.to_owned(), JsonValue::Num(crate::num::i64_to_string(n))));
            proof {
                assert(crate::json::member_views_of(members@) =~= crate::json::member_views_of(
                    pre,
                ) + seg_i64(key@, o));
            }
        },
        None => {
            proof {
                assert(crate::json::member_views_of(members@) =~= crate::json::member_views_of(
                    members@,
                ) + seg_i64(key@, o));
            }
        },
    }
}

pub(crate) fn push_seg_currency(
    members: &mut Vec<(String, JsonValue)>,
    key: &str,
    o: Option<Currency>,
)
    ensures
        crate::json::member_views_of(final(members)@) == crate::json::member_views_of(
            old(members)@,
        ) + seg_currency(key@, o),
{
    match o {
        Some(c) => {
            let ghost pre = members@;
            members.push((key.to_owned(), JsonValue::Str(String::from_str(c.as_str()))));
            proof {
                assert(crate::json::member_views_of(members@) =~= crate::json::member_views_of(
                    pre,
                ) + seg_currency(key@, o));
            }
        },
        None => {
            proof {
                assert(crate::json::member_views_of(members@) =~= crate::json::member_views_of(
                    members@,
                ) + seg_currency(key@, o));
            }
        },
    }
}

pub(crate) fn push_seg_notes(
    members: &mut Vec<(String, JsonValue)>,
    key: &str,
    o: &Option<Object>,
)
    ensures
        crate::json::member_views_of(final(members)@) == crate::json::member_views_of(
            old(members)@,
        ) + seg_notes(key@, *o),
{
    match o {
        Some(m) => {
            let ghost pre = members@;
            members.push((key.to_owned(), object_to_json(m)));
            proof {
                assert(crate::json::member_views_of(members@) =~= crate::json::member_views_of(
                    pre,
                ) + seg_notes(key@, *o));
            }
        },
        None => {
            proof {
                assert(crate::json::member_views_of(members@) =~= crate::json::member_views_of(
                    members@,
                ) + seg_notes(key@, *o));
            }
        },
    }
}

} // verus!
