//! Conventions for reading entity fields out of decoded JSON values:
//! required and optional members of each primitive kind, and the
//! `notes`-style maps that the service sends as an object or, when
//! empty, sometimes as an empty array.

use vstd::prelude::*;

use crate::common::{object_views, Object};
use crate::error::sp_str_object_from;
use crate::json::{JVal, JsonValue};
use crate::num::{all_digits, dec_val, spec_parse_int};

verus! {

/// The model of an optional member: the member's value, where there is
/// one.
pub open spec fn optv(o: Option<&JsonValue>) -> Option<JVal> {
    match o {
        Some(v) => Some(v@),
        None => None,
    }
}

/// A required unsigned number: a digit-only lexeme whose value fits.
pub open spec fn sp_req_u64(v: Option<JVal>) -> Option<u64> {
    match v {
        Some(JVal::Num(s)) => if s.len() > 0 && all_digits(s) && dec_val(s) <= u64::MAX {
            Some(dec_val(s) as u64)
        } else {
            None
        },
        _ => None,
    }
}

/// A required unsigned number that must fit in 32 bits.
pub open spec fn sp_req_u32(v: Option<JVal>) -> Option<u32> {
    match sp_req_u64(v) {
        Some(n) => if n <= u32::MAX {
            Some(n as u32)
        } else {
            None
        },
        None => None,
    }
}

/// A required signed number: a decimal lexeme whose value fits.
pub open spec fn sp_req_i64(v: Option<JVal>) -> Option<i64> {
    match v {
        Some(JVal::Num(s)) => match spec_parse_int(s) {
            Some(n) => if i64::MIN <= n <= i64::MAX {
                Some(n as i64)
            } else {
                None
            },
            None => None,
        },
        _ => None,
    }
}

/// A required string member.
pub open spec fn sp_req_str(v: Option<JVal>) -> Option<Seq<char>> {
    match v {
        Some(JVal::Str(s)) => Some(s),
        _ => None,
    }
}

/// A required boolean member.
pub open spec fn sp_req_bool(v: Option<JVal>) -> Option<bool> {
    match v {
        Some(JVal::Bool(b)) => Some(b),
        _ => None,
    }
}

/// A required unsigned number that must fit in 16 bits.
pub open spec fn sp_req_u16(v: Option<JVal>) -> Option<u16> {
    match sp_req_u64(v) {
        Some(n) => if n <= u16::MAX {
            Some(n as u16)
        } else {
            None
        },
        None => None,
    }
}

/// An optional boolean: absent or `null` count as absent.
pub open spec fn sp_opt_bool(v: Option<JVal>) -> Option<Option<bool>> {
    match v {
        None => Some(None),
        Some(JVal::Null) => Some(None),
        Some(JVal::Bool(b)) => Some(Some(b)),
        Some(_) => None,
    }
}

/// An optional unsigned number: absent or `null` count as absent.
pub open spec fn sp_opt_u64(v: Option<JVal>) -> Option<Option<u64>> {
    match v {
        None => Some(None),
        Some(JVal::Null) => Some(None),
        Some(w) => match sp_req_u64(Some(w)) {
            Some(n) => Some(Some(n)),
            None => None,
        },
    }
}

/// An optional unsigned number that must fit in 32 bits.
pub open spec fn sp_opt_u32(v: Option<JVal>) -> Option<Option<u32>> {
    match sp_opt_u64(v) {
        Some(Some(n)) => if n <= u32::MAX {
            Some(Some(n as u32))
        } else {
            None
        },
        Some(None) => Some(None),
        None => None,
    }
}

/// An optional signed number: absent or `null` count as absent.
pub open spec fn sp_opt_i64(v: Option<JVal>) -> Option<Option<i64>> {
    match v {
        None => Some(None),
        Some(JVal::Null) => Some(None),
        Some(w) => match sp_req_i64(Some(w)) {
            Some(n) => Some(Some(n)),
            None => None,
        },
    }
}

/// A `notes`-style map: an all-string object, or an empty array, which
/// the service sends for an empty map.
pub open spec fn sp_notes(v: Option<JVal>) -> Option<Seq<(Seq<char>, Seq<char>)>> {
    match v {
        Some(JVal::Obj(members)) => sp_str_object_from(members, 0),
        Some(JVal::Arr(items)) => if items.len() == 0 {
            Some(Seq::empty())
        } else {
            None
        },
        _ => None,
    }
}

pub fn req_u64(o: Option<&JsonValue>) -> (r: Option<u64>)
    ensures
        r == sp_req_u64(optv(o)),
{
    match o {
        Some(JsonValue::Num(s)) => crate::num::parse_u64(s.as_str()),
        _ => None,
    }
}

pub fn req_u32(o: Option<&JsonValue>) -> (r: Option<u32>)
    ensures
        r == sp_req_u32(optv(o)),
{
    match req_u64(o) {
        Some(n) => if n <= 0xFFFF_FFFFu64 {
            Some(n as u32)
        } else {
            None
        },
        None => None,
    }
}

pub fn req_i64(o: Option<&JsonValue>) -> (r: Option<i64>)
    ensures
        r == sp_req_i64(optv(o)),
{
    match o {
        Some(JsonValue::Num(s)) => crate::num::parse_i64(s.as_str()),
        _ => None,
    }
}

pub fn req_str(o: Option<&JsonValue>) -> (r: Option<String>)
    ensures
        match (r, sp_req_str(optv(o))) {
            (Some(s), Some(sv)) => s@ == sv,
            (None, None) => true,
            _ => false,
        },
{
    match o {
        Some(JsonValue::Str(s)) => Some(s.clone()),
        _ => None,
    }
}

pub fn req_bool(o: Option<&JsonValue>) -> (r: Option<bool>)
    ensures
        r == sp_req_bool(optv(o)),
{
    match o {
        Some(JsonValue::Bool(b)) => Some(*b),
        _ => None,
    }
}

pub fn req_u16(o: Option<&JsonValue>) -> (r: Option<u16>)
    ensures
        r == sp_req_u16(optv(o)),
{
    match req_u64(o) {
        Some(n) => if n <= 0xFFFFu64 {
            Some(n as u16)
        } else {
            None
        },
        None => None,
    }
}

pub fn opt_bool(o: Option<&JsonValue>) -> (r: Option<Option<bool>>)
    ensures
        r == sp_opt_bool(optv(o)),
{
    match o {
        None => Some(None),
        Some(JsonValue::Null) => Some(None),
        Some(JsonValue::Bool(b)) => Some(Some(*b)),
        Some(_) => None,
    }
}

pub fn opt_u64(o: Option<&JsonValue>) -> (r: Option<Option<u64>>)
    ensures
        r == sp_opt_u64(optv(o)),
{
    match o {
        None => Some(None),
        Some(JsonValue::Null) => Some(None),
        Some(w) => match req_u64(Some(w)) {
            Some(n) => Some(Some(n)),
            None => None,
        },
    }
}

pub fn opt_u32(o: Option<&JsonValue>) -> (r: Option<Option<u32>>)
    ensures
        r == sp_opt_u32(optv(o)),
{
    match opt_u64(o) {
        Some(Some(n)) => if n <= 0xFFFF_FFFFu64 {
            Some(Some(n as u32))
        } else {
            None
        },
        Some(None) => Some(None),
        None => None,
    }
}

pub fn opt_i64(o: Option<&JsonValue>) -> (r: Option<Option<i64>>)
    ensures
        r == sp_opt_i64(optv(o)),
{
    match o {
        None => Some(None),
        Some(JsonValue::Null) => Some(None),
        Some(w) => match req_i64(Some(w)) {
            Some(n) => Some(Some(n)),
            None => None,
        },
    }
}

pub fn req_notes(o: Option<&JsonValue>) -> (r: Option<Object>)
    ensures
        match (r, sp_notes(optv(o))) {
            (Some(m), Some(sm)) => object_views(m@) == sm,
            (None, None) => true,
            _ => false,
        },
{
    match o {
        Some(JsonValue::Obj(members)) => crate::error::str_object_from(members, 0),
        Some(JsonValue::Arr(items)) => if items.len() == 0 {
            let m: Object = Vec::new();
            proof {
                assert(object_views(m@) =~= Seq::<(Seq<char>, Seq<char>)>::empty());
            }
            Some(m)
        } else {
            None
        },
        _ => None,
    }
}

} // verus!
