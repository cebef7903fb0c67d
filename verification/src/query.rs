//! Flattening a payload into query-string pairs, for the read verbs.
//!
//! A payload must be an object at top level.  A boolean, string or
//! number member becomes one pair under its key; an array of such
//! scalars becomes one pair per element under the same key.  A nested
//! object, an array inside an array, or a null anywhere is refused.

use vstd::prelude::*;

use crate::error::RazorpayError;
use crate::json::{jtext, JVal, JsonValue};

verus! {

/// The query text of one scalar: booleans and numbers as their wire
/// text, strings as their characters, nothing else.
pub open spec fn sq_scalar(j: JVal) -> Option<Seq<char>> {
    match j {
        JVal::Bool(b) => Some(jtext(j)),
        JVal::Num(s) => Some(s),
        JVal::Str(s) => Some(s),
        _ => None,
    }
}

/// The pairs of one array member, scanning from `i`: each element a
/// scalar under the shared key.
pub open spec fn sq_array_from(items: Seq<JVal>, key: Seq<char>, i: int) -> Option<
    Seq<(Seq<char>, Seq<char>)>,
>
    decreases items.len() - i,
{
    if !(0 <= i < items.len()) {
        Some(Seq::empty())
    } else {
        match sq_scalar(items[i]) {
            None => None,
            Some(s) => match sq_array_from(items, key, i + 1) {
                None => None,
                Some(rest) => Some(seq![(key, s)] + rest),
            },
        }
    }
}

/// The pairs of one member: a scalar gives one pair, an array its
/// element pairs, anything else is refused.
pub open spec fn sq_member(key: Seq<char>, v: JVal) -> Option<Seq<(Seq<char>, Seq<char>)>> {
    match v {
        JVal::Arr(items) => sq_array_from(items, key, 0),
        JVal::Bool(_) => Some(seq![(key, sq_scalar(v)->Some_0)]),
        JVal::Num(_) => Some(seq![(key, sq_scalar(v)->Some_0)]),
        JVal::Str(_) => Some(seq![(key, sq_scalar(v)->Some_0)]),
        _ => None,
    }
}

/// The pairs of an object's members, scanning from `i`, in member
/// order.
pub open spec fn sq_members_from(members: Seq<(Seq<char>, JVal)>, i: int) -> Option<
    Seq<(Seq<char>, Seq<char>)>,
>
    decreases members.len() - i,
{
    if !(0 <= i < members.len()) {
        Some(Seq::empty())
    } else {
        match sq_member(members[i].0, members[i].1) {
            None => None,
            Some(ps) => match sq_members_from(members, i + 1) {
                None => None,
                Some(rest) => Some(ps + rest),
            },
        }
    }
}

/// What a whole payload encodes to: defined exactly for top-level
/// objects of scalars and scalar arrays.
pub open spec fn spec_query_encoding(j: JVal) -> Option<Seq<(Seq<char>, Seq<char>)>> {
    match j {
        JVal::Obj(members) => sq_members_from(members, 0),
        _ => None,
    }
}

/// A record of scalars always encodes, one pair per member, each pair
/// carrying the member's key and its scalar text.
pub proof fn lemma_query_scalar_fields(members: Seq<(Seq<char>, JVal)>, i: int)
    requires
        0 <= i <= members.len(),
        forall|k: int| i <= k < members.len() ==> sq_scalar(#[trigger] members[k].1) is Some,
    ensures
        sq_members_from(members, i) matches Some(ps) && ps.len() == members.len() - i && (forall|
            k: int,
        |
            i <= k < members.len() ==> #[trigger] ps[k - i] == (
                members[k].0,
                sq_scalar(members[k].1)->Some_0,
            )),
    decreases members.len() - i,
{
    if i < members.len() {
        lemma_query_scalar_fields(members, i + 1);
        assert(sq_member(members[i].0, members[i].1) == Some(
            seq![(members[i].0, sq_scalar(members[i].1)->Some_0)],
        ));
        let rest = sq_members_from(members, i + 1)->Some_0;
        let ps = sq_members_from(members, i)->Some_0;
        assert(ps == seq![(members[i].0, sq_scalar(members[i].1)->Some_0)] + rest);
        assert forall|k: int| i <= k < members.len() implies #[trigger] ps[k - i] == (
            members[k].0,
            sq_scalar(members[k].1)->Some_0,
        ) by {
            if k > i {
                assert(ps[k - i] == rest[k - (i + 1)]);
            }
        }
    }
}

/// A member holding a nested object, or an array with a non-scalar
/// element, defeats the whole encoding.
pub proof fn lemma_query_nested_fails(members: Seq<(Seq<char>, JVal)>, bad: int)
    requires
        0 <= bad < members.len(),
        sq_member(members[bad].0, members[bad].1) is None,
    ensures
        spec_query_encoding(JVal::Obj(members)) is None,
{
    lemma_query_members_fail_from(members, 0, bad);
}

proof fn lemma_query_members_fail_from(members: Seq<(Seq<char>, JVal)>, i: int, bad: int)
    requires
        0 <= i <= bad < members.len(),
        sq_member(members[bad].0, members[bad].1) is None,
    ensures
        sq_members_from(members, i) is None,
    decreases members.len() - i,
{
    if i < bad {
        lemma_query_members_fail_from(members, i + 1, bad);
    }
}

fn scalar_string(v: &JsonValue) -> (r: Option<String>)
    ensures
        match (r, sq_scalar(v@)) {
            (Some(s), Some(sv)) => s@ == sv,
            (None, None) => true,
            _ => false,
        },
{
    match v {
        JsonValue::Bool(b) => {
            proof {
                reveal_strlit("true");
                reveal_strlit("false");
                assert("true"@ =~= seq!['t', 'r', 'u', 'e']);
                assert("false"@ =~= seq!['f', 'a', 'l', 's', 'e']);
            }
            if *b {
                Some(String::from_str("true"))
            } else {
                Some(String::from_str("false"))
            }
        },
        JsonValue::Num(s) => Some(s.clone()),
        JsonValue::Str(s) => Some(s.clone()),
        _ => None,
    }
}

fn encode_array(items: &Vec<JsonValue>, key: &String, i: usize, out: &mut Vec<(String, String)>)
    -> (ok: bool)
    requires
        i <= items@.len(),
    ensures
        match sq_array_from(crate::json::views_of(items@), key@, i as int) {
            Some(ps) => ok && crate::common::object_views(final(out)@) =~= crate::common::object_views(
                old(out)@,
            ) + ps,
            None => !ok,
        },
    decreases items@.len() - i,
{
    if i >= items.len() {
        return true;
    }
    proof {
        assert(crate::json::views_of(items@)[i as int] == items@[i as int].jval());
    }
    match scalar_string(&items[i]) {
        None => false,
        Some(s) => {
            let ghost opre = out@;
            out.push((key.clone(), s));
            let ghost omid = out@;
            let r = encode_array(items, key, i + 1, out);
            proof {
                if r {
                    let kv = crate::json::views_of(items@);
                    let ps = sq_array_from(kv, key@, i as int)->Some_0;
                    let rest = sq_array_from(kv, key@, i as int + 1)->Some_0;
                    assert(crate::common::object_views(omid) =~= crate::common::object_views(opre)
                        + seq![(key@, sq_scalar(kv[i as int])->Some_0)]);
                    assert(crate::common::object_views(out@) =~= crate::common::object_views(opre)
                        + ps);
                }
            }
            r
        },
    }
}

fn encode_members(
    members: &Vec<(String, JsonValue)>,
    i: usize,
    out: &mut Vec<(String, String)>,
) -> (ok: bool)
    requires
        i <= members@.len(),
    ensures
        match sq_members_from(crate::json::member_views_of(members@), i as int) {
            Some(ps) => ok && crate::common::object_views(final(out)@)
                =~= crate::common::object_views(old(out)@) + ps,
            None => !ok,
        },
    decreases members@.len() - i,
{
    if i >= members.len() {
        return true;
    }
    proof {
        let k = i as int;
        assert(crate::json::member_views_of(members@)[k] == (
            members@[k].0@,
            members@[k].1.jval(),
        ));
    }
    let ghost opre = out@;
    let ok_member: bool = match &members[i].1 {
        JsonValue::Arr(items) => encode_array(items, &members[i].0, 0, out),
        other => match scalar_string(other) {
            None => {
                proof {
                    let mv = crate::json::member_views_of(members@);
                    assert(sq_member(mv[i as int].0, mv[i as int].1) is None);
                }
                false
            },
            Some(s) => {
                out.push((members[i].0.clone(), s));
                proof {
                    let mv = crate::json::member_views_of(members@);
                    assert(crate::common::object_views(out@) =~= crate::common::object_views(opre)
                        + sq_member(mv[i as int].0, mv[i as int].1)->Some_0);
                }
                true
            },
        },
    };
    if !ok_member {
        return false;
    }
    let ghost omid = out@;
    let r = encode_members(members, i + 1, out);
    proof {
        if r {
            let mv = crate::json::member_views_of(members@);
            let ps = sq_members_from(mv, i as int)->Some_0;
            let rest = sq_members_from(mv, i as int + 1)->Some_0;
            assert(crate::common::object_views(out@) =~= crate::common::object_views(opre) + ps);
        }
    }
    r
}

/// Flattens a payload into query pairs; fails with a serialization
/// error exactly where the payload is not a flat record of scalars and
/// scalar arrays.
pub fn make_serializable(value: &JsonValue) -> (r: Result<Vec<(String, String)>, RazorpayError>)
    ensures
        match (r, spec_query_encoding(value@)) {
            (Ok(pairs), Some(ps)) => crate::common::object_views(pairs@) == ps,
            (Err(e), None) => e is SerializationError,
            _ => false,
        },
{
    let members = match value {
        JsonValue::Obj(members) => members,
        _ => {
            return Err(
                RazorpayError::SerializationError(
                    String::from_str("top level value should be a map"),
                ),
            );
        },
    };
    let mut out: Vec<(String, String)> = Vec::new();
    if encode_members(members, 0, &mut out) {
        Ok(out)
    } else {
        Err(
            RazorpayError::SerializationError(
                String::from_str("unsupported value in map, cannot serialize nested structures"),
            ),
        )
    }
}

} // verus!
