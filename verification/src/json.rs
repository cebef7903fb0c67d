//! The JSON value model that requests and responses travel through.
//!
//! Numbers are kept as their decimal lexeme, so a value round-trips
//! exactly as it stood in the wire text.

use vstd::prelude::*;
use vstd::string::StrSliceExecFns;

verus! {

broadcast use {
    vstd::std_specs::vec::axiom_vec_index_decreases,
    vstd::std_specs::vec::axiom_vec_decreases_to_view,
    vstd::seq::axiom_seq_index_decreases,
};

/// The mathematical model of a [`JsonValue`].
pub ghost enum JVal {
    Null,
    Bool(bool),
    Num(Seq<char>),
    Str(Seq<char>),
    Arr(Seq<JVal>),
    Obj(Seq<(Seq<char>, JVal)>),
}

/// A JSON document: the payload of a request body, a query record,
/// or a decoded response.
#[derive(Debug)]
pub enum JsonValue {
    Null,
    Bool(bool),
    /// A number, held as its decimal lexeme from or for the wire text.
    Num(String),
    Str(String),
    Arr(Vec<JsonValue>),
    Obj(Vec<(String, JsonValue)>),
}

impl JsonValue {
    pub open spec fn jval(self) -> JVal
        decreases self, 1int,
    {
        match self {
            JsonValue::Null => JVal::Null,
            JsonValue::Bool(b) => JVal::Bool(b),
            JsonValue::Num(s) => JVal::Num(s@),
            JsonValue::Str(s) => JVal::Str(s@),
            JsonValue::Arr(items) => JVal::Arr(views_of(items@)),
            JsonValue::Obj(members) => JVal::Obj(member_views_of(members@)),
        }
    }
}

/// The models of a sequence of values, element for element.
pub open spec fn views_of(items: Seq<JsonValue>) -> Seq<JVal>
    decreases items, 0int,
{
    Seq::new(
        items.len(),
        |i: int|
            if 0 <= i < items.len() {
                items[i].jval()
            } else {
                JVal::Null
            },
    )
}

/// The models of a sequence of members, key and value for each.
pub open spec fn member_views_of(members: Seq<(String, JsonValue)>) -> Seq<(Seq<char>, JVal)>
    decreases members, 0int,
{
    Seq::new(
        members.len(),
        |i: int|
            if 0 <= i < members.len() {
                (members[i].0@, members[i].1.jval())
            } else {
                (Seq::empty(), JVal::Null)
            },
    )
}

impl View for JsonValue {
    type V = JVal;

    open spec fn view(&self) -> JVal {
        self.jval()
    }
}

#[verifier::spinoff_prover]
fn clone_value(v: &JsonValue) -> (r: JsonValue)
    ensures
        r@ == v@,
    decreases v,
{
    match v {
        JsonValue::Null => JsonValue::Null,
        JsonValue::Bool(b) => JsonValue::Bool(*b),
        JsonValue::Num(s) => JsonValue::Num(s.clone()),
        JsonValue::Str(s) => JsonValue::Str(s.clone()),
        JsonValue::Arr(items) => {
            let mut copy: Vec<JsonValue> = Vec::new();
            let n = items.len();
            let mut i: usize = 0;
            while i < n
                invariant
                    n == items@.len(),
                    *v == JsonValue::Arr(*items),
                    decreases_to!(*v => *items),
                    i <= n,
                    copy@.len() == i,
                    forall|k: int| 0 <= k < i ==> #[trigger] copy@[k]@ == items@[k]@,
                decreases n - i,
            {
                proof {
                    assert(decreases_to!(*items => items@[i as int]));
                }
                copy.push(clone_value(&items[i]));
                i = i + 1;
            }
            proof {
                assert forall|k: int| 0 <= k < n implies views_of(copy@)[k] == views_of(
                    items@,
                )[k] by {
                    assert(copy@[k]@ == items@[k]@);
                }
                assert(views_of(copy@) =~= views_of(items@));
            }
            JsonValue::Arr(copy)
        },
        JsonValue::Obj(members) => {
            let mut copy: Vec<(String, JsonValue)> = Vec::new();
            let n = members.len();
            let mut i: usize = 0;
            while i < n
                invariant
                    n == members@.len(),
                    *v == JsonValue::Obj(*members),
                    decreases_to!(*v => *members),
                    i <= n,
                    copy@.len() == i,
                    forall|k: int| 0 <= k < i ==> #[trigger] copy@[k].0@ == members@[k].0@
                        && copy@[k].1@ == members@[k].1@,
                decreases n - i,
            {
                proof {
                    assert(decreases_to!(*members => members@[i as int]));
                    assert(decreases_to!(members@[i as int] => members@[i as int].1));
                }
                copy.push((members[i].0.clone(), clone_value(&members[i].1)));
                i = i + 1;
            }
            proof {
                assert forall|k: int| 0 <= k < n implies member_views_of(copy@)[k]
                    == member_views_of(members@)[k] by {
                    assert(copy@[k].0@ == members@[k].0@);
                    assert(copy@[k].1@ == members@[k].1@);
                }
                assert(member_views_of(copy@) =~= member_views_of(members@));
            }
            JsonValue::Obj(copy)
        },
    }
}

impl Clone for JsonValue {
    /// A deep copy with the same model.
    fn clone(&self) -> (r: JsonValue)
        ensures
            r@ == self@,
    {
        clone_value(self)
    }
}

pub open spec fn spec_is_digit(c: char) -> bool {
    ('0' as u32) <= (c as u32) && (c as u32) <= ('9' as u32)
}

pub open spec fn spec_hex_digit(n: u32) -> char {
    if n == 0 { '0' } else if n == 1 { '1' } else if n == 2 { '2' } else if n == 3 { '3' }
    else if n == 4 { '4' } else if n == 5 { '5' } else if n == 6 { '6' } else if n == 7 { '7' }
    else if n == 8 { '8' } else if n == 9 { '9' } else if n == 10 { 'a' } else if n == 11 { 'b' }
    else if n == 12 { 'c' } else if n == 13 { 'd' } else if n == 14 { 'e' } else { 'f' }
}

/// How one character of a JSON string is rendered inside double quotes.
pub open spec fn esc_char(c: char) -> Seq<char> {
    if c == '"' { seq!['\\', '"'] }
    else if c == '\\' { seq!['\\', '\\'] }
    else if c == '\n' { seq!['\\', 'n'] }
    else if c == '\r' { seq!['\\', 'r'] }
    else if c == '\t' { seq!['\\', 't'] }
    else if c == '\u{0008}' { seq!['\\', 'b'] }
    else if c == '\u{000C}' { seq!['\\', 'f'] }
    else if (c as u32) < 0x20 {
        seq!['\\', 'u', '0', '0', spec_hex_digit((c as u32) / 16), spec_hex_digit((c as u32) % 16)]
    } else { seq![c] }
}

/// The rendering of the first `k` characters of a string body.
pub open spec fn esc_upto(s: Seq<char>, k: int) -> Seq<char>
    decreases k,
{
    if k <= 0 {
        Seq::empty()
    } else {
        esc_upto(s, k - 1) + esc_char(s[k - 1])
    }
}

/// A string as it stands in JSON text: quoted and escaped.
pub open spec fn str_text(s: Seq<char>) -> Seq<char> {
    seq!['"'] + esc_upto(s, s.len() as int) + seq!['"']
}

/// The canonical text of a JSON value: no whitespace, members in order,
/// numbers printed as their lexeme.
pub open spec fn jtext(j: JVal) -> Seq<char>
    decreases j, 0int,
{
    match j {
        JVal::Null => seq!['n', 'u', 'l', 'l'],
        JVal::Bool(b) => if b { seq!['t', 'r', 'u', 'e'] } else { seq!['f', 'a', 'l', 's', 'e'] },
        JVal::Num(s) => s,
        JVal::Str(s) => str_text(s),
        JVal::Arr(items) => seq!['['] + arr_text_upto(items, items.len() as int) + seq![']'],
        JVal::Obj(members) => seq!['{'] + obj_text_upto(members, members.len() as int) + seq!['}'],
    }
}

/// The text of the first `k` elements of an array body, commas between.
pub open spec fn arr_text_upto(items: Seq<JVal>, k: int) -> Seq<char>
    decreases items, k,
{
    if k <= 0 || k > items.len() {
        Seq::empty()
    } else {
        arr_text_upto(items, k - 1) + (if k == 1 { Seq::<char>::empty() } else { seq![','] })
            + jtext(items[k - 1])
    }
}

/// The text of the first `k` members of an object body, commas between.
pub open spec fn obj_text_upto(members: Seq<(Seq<char>, JVal)>, k: int) -> Seq<char>
    decreases members, k,
{
    if k <= 0 || k > members.len() {
        Seq::empty()
    } else {
        obj_text_upto(members, k - 1) + (if k == 1 { Seq::<char>::empty() } else { seq![','] })
            + str_text(members[k - 1].0) + seq![':'] + jtext(members[k - 1].1)
    }
}

/// The value of the first member named `key`, scanning from `i`.
pub open spec fn obj_get_from(
    members: Seq<(Seq<char>, JVal)>,
    key: Seq<char>,
    i: int,
) -> Option<JVal>
    decreases members.len() - i,
{
    if !(0 <= i < members.len()) {
        None
    } else if members[i].0 == key {
        Some(members[i].1)
    } else {
        obj_get_from(members, key, i + 1)
    }
}

/// The value of the first member named `key`.
pub open spec fn obj_get(members: Seq<(Seq<char>, JVal)>, key: Seq<char>) -> Option<JVal> {
    obj_get_from(members, key, 0)
}

/// Member lookup lifted to any value: objects look up, others have
/// no members.
pub open spec fn jval_get(v: JVal, key: Seq<char>) -> Option<JVal> {
    match v {
        JVal::Obj(members) => obj_get(members, key),
        _ => None,
    }
}

fn get_from<'a>(members: &'a Vec<(String, JsonValue)>, key: &str, i: usize) -> (r: Option<
    &'a JsonValue,
>)
    requires
        i <= members@.len(),
    ensures
        match (r, obj_get_from(member_views_of(members@), key@, i as int)) {
            (Some(v), Some(sv)) => v@ == sv,
            (None, None) => true,
            _ => false,
        },
    decreases members@.len() - i,
{
    if i < members.len() {
        proof {
            let k = i as int;
            assert(member_views_of(members@)[k] == (members@[k].0@, members@[k].1.jval()));
        }
        if crate::strutil::str_eq(members[i].0.as_str(), key) {
            Some(&members[i].1)
        } else {
            get_from(members, key, i + 1)
        }
    } else {
        None
    }
}

impl JsonValue {
    /// The first member of an object under `key`; `None` for any other
    /// shape of value.
    pub fn get_member<'a>(&'a self, key: &str) -> (r: Option<&'a JsonValue>)
        ensures
            match (r, jval_get(self@, key@)) {
                (Some(v), Some(sv)) => v@ == sv,
                (None, None) => true,
                _ => false,
            },
    {
        match self {
            JsonValue::Obj(members) => get_from(members, key, 0),
            _ => None,
        }
    }
}

/// Relies on `String::from_iter` collecting the characters in order.
#[verifier::external_body]
pub(crate) fn chars_to_string(v: &Vec<char>) -> (r: String)
    ensures
        r@ == v@,
{
    v.iter().collect()
}

pub(crate) fn hex_digit(n: u32) -> (r: char)
    requires
        n < 16,
    ensures
        r == spec_hex_digit(n),
{
    if n == 0 { '0' } else if n == 1 { '1' } else if n == 2 { '2' } else if n == 3 { '3' }
    else if n == 4 { '4' } else if n == 5 { '5' } else if n == 6 { '6' } else if n == 7 { '7' }
    else if n == 8 { '8' } else if n == 9 { '9' } else if n == 10 { 'a' } else if n == 11 { 'b' }
    else if n == 12 { 'c' } else if n == 13 { 'd' } else if n == 14 { 'e' } else { 'f' }
}

/// Appends every character of `s` to `out`.
pub(crate) fn push_chars(s: &str, out: &mut Vec<char>)
    ensures
        final(out)@ == old(out)@ + s@,
{
    let n = s.unicode_len();
    let mut i: usize = 0;
    while i < n
        invariant
            n == s@.len(),
            i <= n,
            out@ == old(out)@ + s@.subrange(0, i as int),
        decreases n - i,
    {
        out.push(s.get_char(i));
        i = i + 1;
        assert(old(out)@ + s@.subrange(0, i - 1) + seq![s@[i - 1]] =~= old(out)@ + s@.subrange(
            0,
            i as int,
        ));
    }
    assert(s@.subrange(0, n as int) =~= s@);
}

/// Appends the escaped body of `s` to `out`.
fn write_escaped(s: &str, out: &mut Vec<char>)
    ensures
        final(out)@ == old(out)@ + esc_upto(s@, s@.len() as int),
{
    let n = s.unicode_len();
    let mut i: usize = 0;
    while i < n
        invariant
            n == s@.len(),
            i <= n,
            out@ == old(out)@ + esc_upto(s@, i as int),
        decreases n - i,
    {
        let ghost prev = out@;
        let c = s.get_char(i);
        if c == '"' {
            out.push('\\');
            out.push('"');
        } else if c == '\\' {
            out.push('\\');
            out.push('\\');
        } else if c == '\n' {
            out.push('\\');
            out.push('n');
        } else if c == '\r' {
            out.push('\\');
            out.push('r');
        } else if c == '\t' {
            out.push('\\');
            out.push('t');
        } else if c == '\u{0008}' {
            out.push('\\');
            out.push('b');
        } else if c == '\u{000C}' {
            out.push('\\');
            out.push('f');
        } else if (c as u32) < 0x20 {
            out.push('\\');
            out.push('u');
            out.push('0');
            out.push('0');
            out.push(hex_digit((c as u32) / 16));
            out.push(hex_digit((c as u32) % 16));
        } else {
            out.push(c);
        }
        assert(out@ =~= prev + esc_char(c));
        i = i + 1;
        assert(old(out)@ + esc_upto(s@, i - 1) + esc_char(s@[i - 1]) =~= old(out)@ + esc_upto(
            s@,
            i as int,
        ));
    }
}

/// Appends `s` as a quoted, escaped JSON string to `out`.
fn write_string(s: &str, out: &mut Vec<char>)
    ensures
        final(out)@ == old(out)@ + str_text(s@),
{
    out.push('"');
    write_escaped(s, out);
    out.push('"');
    assert(out@ =~= old(out)@ + str_text(s@));
}

/// Appends the canonical text of `v` to `out`.
fn write_value(v: &JsonValue, out: &mut Vec<char>)
    ensures
        final(out)@ == old(out)@ + jtext(v@),
    decreases v,
{
    match v {
        JsonValue::Null => {
            out.push('n');
            out.push('u');
            out.push('l');
            out.push('l');
            assert(out@ =~= old(out)@ + jtext(v@));
        },
        JsonValue::Bool(b) => {
            if *b {
                out.push('t');
                out.push('r');
                out.push('u');
                out.push('e');
            } else {
                out.push('f');
                out.push('a');
                out.push('l');
                out.push('s');
                out.push('e');
            }
            assert(out@ =~= old(out)@ + jtext(v@));
        },
        JsonValue::Num(s) => {
            push_chars(s.as_str(), out);
        },
        JsonValue::Str(s) => {
            write_string(s.as_str(), out);
        },
        JsonValue::Arr(items) => {
            let ghost model = v@->Arr_0;
            out.push('[');
            let n = items.len();
            let mut i: usize = 0;
            while i < n
                invariant
                    n == items@.len(),
                    model == v@->Arr_0,
                    *v == JsonValue::Arr(*items),
                    model.len() == n,
                    forall|k: int| 0 <= k < n ==> model[k] == #[trigger] items@[k]@,
                    i <= n,
                    out@ == old(out)@ + seq!['['] + arr_text_upto(model, i as int),
                decreases n - i,
            {
                let ghost prev = out@;
                if i > 0 {
                    out.push(',');
                }
                proof {
                    assert(*v == JsonValue::Arr(*items));
                    assert(decreases_to!(JsonValue::Arr(*items) => *items));
                    assert(decreases_to!(*v => *items));
                    assert(decreases_to!(*items => items@[i as int]));
                }
                write_value(&items[i], out);
                assert(out@ =~= prev + (if i == 0 { Seq::<char>::empty() } else { seq![','] })
                    + jtext(model[i as int]));
                i = i + 1;
                assert(out@ =~= old(out)@ + seq!['['] + arr_text_upto(model, i as int));
            }
            out.push(']');
            assert(out@ =~= old(out)@ + jtext(v@));
        },
        JsonValue::Obj(members) => {
            let ghost model = v@->Obj_0;
            out.push('{');
            let n = members.len();
            let mut i: usize = 0;
            while i < n
                invariant
                    n == members@.len(),
                    model == v@->Obj_0,
                    *v == JsonValue::Obj(*members),
                    model.len() == n,
                    forall|k: int| 0 <= k < n ==> #[trigger] model[k]
                        == (members@[k].0@, members@[k].1@),
                    i <= n,
                    out@ == old(out)@ + seq!['{'] + obj_text_upto(model, i as int),
                decreases n - i,
            {
                let ghost prev = out@;
                if i > 0 {
                    out.push(',');
                }
                write_string(members[i].0.as_str(), out);
                out.push(':');
                proof {
                    assert(decreases_to!(*v => *members));
                    assert(decreases_to!(*members => members@[i as int]));
                    assert(decreases_to!(members@[i as int] => members@[i as int].1));
                }
                write_value(&members[i].1, out);
                assert(out@ =~= prev + (if i == 0 { Seq::<char>::empty() } else { seq![','] })
                    + str_text(model[i as int].0) + seq![':'] + jtext(model[i as int].1));
                i = i + 1;
                assert(out@ =~= old(out)@ + seq!['{'] + obj_text_upto(model, i as int));
            }
            out.push('}');
            assert(out@ =~= old(out)@ + jtext(v@));
        },
    }
}

/// Renders `v` as canonical JSON text: no whitespace, members kept in order.
pub fn json_to_text(v: &JsonValue) -> (r: String)
    ensures
        r@ == jtext(v@),
{
    let mut buf: Vec<char> = Vec::new();
    write_value(v, &mut buf);
    chars_to_string(&buf)
}

} // verus!
