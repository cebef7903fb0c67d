//! A recursive-descent JSON reader over characters.
//!
//! The grammar is stated first as specification functions over
//! `Seq<char>`; the executable reader below is proved to return exactly
//! what the grammar says, position for position.  Each reading function
//! skips leading whitespace itself.  Numbers keep their lexeme.  String
//! escapes cover the short forms and `\u` for any basic-plane scalar
//! value; surrogate code units are rejected.

use vstd::prelude::*;

use crate::json::{spec_is_digit, JVal, JsonValue};

verus! {

pub open spec fn spec_is_ws(c: char) -> bool {
    c == ' ' || c == '\t' || c == '\n' || c == '\r'
}

pub open spec fn spec_is_hex(c: char) -> bool {
    spec_is_digit(c) || (('a' as u32) <= (c as u32) && (c as u32) <= ('f' as u32)) || (('A'
        as u32) <= (c as u32) && (c as u32) <= ('F' as u32))
}

pub open spec fn spec_hex_val(c: char) -> int {
    if spec_is_digit(c) {
        (c as u32) - ('0' as u32)
    } else if ('a' as u32) <= (c as u32) && (c as u32) <= ('f' as u32) {
        (c as u32) - ('a' as u32) + 10
    } else {
        (c as u32) - ('A' as u32) + 10
    }
}

/// A code that names a Unicode scalar value of the basic plane.
pub open spec fn spec_is_scalar_code(code: int) -> bool {
    code < 0xD800 || (0xE000 <= code && code <= 0xFFFF)
}

/// The character that a short escape `\x` stands for.
pub open spec fn spec_short_escape(e: char) -> Option<char> {
    if e == '"' { Some('"') }
    else if e == '\\' { Some('\\') }
    else if e == '/' { Some('/') }
    else if e == 'b' { Some('\u{0008}') }
    else if e == 'f' { Some('\u{000C}') }
    else if e == 'n' { Some('\n') }
    else if e == 'r' { Some('\r') }
    else if e == 't' { Some('\t') }
    else { None }
}

/// The first position at or after `i` that does not hold a digit.
pub open spec fn digits_end(s: Seq<char>, i: int) -> int
    decreases s.len() - i,
{
    if 0 <= i < s.len() && spec_is_digit(s[i]) {
        digits_end(s, i + 1)
    } else {
        i
    }
}

/// Reads a string body starting just after the opening quote; yields the
/// unescaped characters and the position just after the closing quote.
pub open spec fn sp_string(s: Seq<char>, i: int) -> Option<(Seq<char>, int)>
    decreases s.len() - i,
{
    if !(0 <= i < s.len()) {
        None
    } else {
        let c = s[i];
        if c == '"' {
            Some((Seq::empty(), i + 1))
        } else if c == '\\' {
            if i + 2 > s.len() {
                None
            } else {
                let e = s[i + 1];
                if e == 'u' {
                    if i + 6 <= s.len() && spec_is_hex(s[i + 2]) && spec_is_hex(s[i + 3])
                        && spec_is_hex(s[i + 4]) && spec_is_hex(s[i + 5]) {
                        let code = spec_hex_val(s[i + 2]) * 4096 + spec_hex_val(s[i + 3]) * 256
                            + spec_hex_val(s[i + 4]) * 16 + spec_hex_val(s[i + 5]);
                        if spec_is_scalar_code(code) {
                            match sp_string(s, i + 6) {
                                Some((rest, j)) => Some((seq![(code as u32) as char] + rest, j)),
                                None => None,
                            }
                        } else {
                            None
                        }
                    } else {
                        None
                    }
                } else {
                    match spec_short_escape(e) {
                        Some(ch) => match sp_string(s, i + 2) {
                            Some((rest, j)) => Some((seq![ch] + rest, j)),
                            None => None,
                        },
                        None => None,
                    }
                }
            }
        } else if (c as u32) < 0x20 {
            None
        } else {
            match sp_string(s, i + 1) {
                Some((rest, j)) => Some((seq![c] + rest, j)),
                None => None,
            }
        }
    }
}

/// Reads a number lexeme starting at `i`: an optional minus, an integer
/// part without leading zeros, then optional fraction and exponent.
pub open spec fn sp_number(s: Seq<char>, i: int) -> Option<(Seq<char>, int)> {
    if !(0 <= i < s.len()) {
        None
    } else {
        let a = if s[i] == '-' { i + 1 } else { i };
        if !(a < s.len() && spec_is_digit(s[a])) {
            None
        } else {
            let b = if s[a] == '0' { a + 1 } else { digits_end(s, a) };
            let after_frac = if b < s.len() && s[b] == '.' {
                let d = digits_end(s, b + 1);
                if d == b + 1 { None } else { Some(d) }
            } else {
                Some(b)
            };
            match after_frac {
                None => None,
                Some(c) => {
                    let after_exp = if c < s.len() && (s[c] == 'e' || s[c] == 'E') {
                        let e0 = if c + 1 < s.len() && (s[c + 1] == '+' || s[c + 1] == '-') {
                            c + 2
                        } else {
                            c + 1
                        };
                        let d = digits_end(s, e0);
                        if d == e0 { None } else { Some(d) }
                    } else {
                        Some(c)
                    };
                    match after_exp {
                        None => None,
                        Some(e) => Some((s.subrange(i, e), e)),
                    }
                },
            }
        }
    }
}

/// Reads one value after optional whitespace.
pub open spec fn sp_value(s: Seq<char>, i: int) -> Option<(JVal, int)>
    decreases s.len() - i, 1int,
{
    if !(0 <= i < s.len()) {
        None
    } else if spec_is_ws(s[i]) {
        sp_value(s, i + 1)
    } else {
        let c = s[i];
        if c == 'n' {
            if i + 4 <= s.len() && s[i + 1] == 'u' && s[i + 2] == 'l' && s[i + 3] == 'l' {
                Some((JVal::Null, i + 4))
            } else {
                None
            }
        } else if c == 't' {
            if i + 4 <= s.len() && s[i + 1] == 'r' && s[i + 2] == 'u' && s[i + 3] == 'e' {
                Some((JVal::Bool(true), i + 4))
            } else {
                None
            }
        } else if c == 'f' {
            if i + 5 <= s.len() && s[i + 1] == 'a' && s[i + 2] == 'l' && s[i + 3] == 's' && s[i + 4]
                == 'e' {
                Some((JVal::Bool(false), i + 5))
            } else {
                None
            }
        } else if c == '"' {
            match sp_string(s, i + 1) {
                Some((t, j)) => Some((JVal::Str(t), j)),
                None => None,
            }
        } else if c == '[' {
            match sp_elems(s, i + 1) {
                Some((items, j)) => Some((JVal::Arr(items), j)),
                None => None,
            }
        } else if c == '{' {
            match sp_members(s, i + 1) {
                Some((members, j)) => Some((JVal::Obj(members), j)),
                None => None,
            }
        } else if c == '-' || spec_is_digit(c) {
            match sp_number(s, i) {
                Some((t, j)) => Some((JVal::Num(t), j)),
                None => None,
            }
        } else {
            None
        }
    }
}

/// Reads the elements of an array, starting just after the opening
/// bracket; yields them and the position just after the closing bracket.
pub open spec fn sp_elems(s: Seq<char>, i: int) -> Option<(Seq<JVal>, int)>
    decreases s.len() - i, 2int,
{
    if !(0 <= i < s.len()) {
        None
    } else if spec_is_ws(s[i]) {
        sp_elems(s, i + 1)
    } else if s[i] == ']' {
        Some((Seq::empty(), i + 1))
    } else {
        match sp_value(s, i) {
            None => None,
            Some((v, j)) => if i < j <= s.len() {
                match sp_more_elems(s, j) {
                    None => None,
                    Some((rest, k)) => Some((seq![v] + rest, k)),
                }
            } else {
                None
            },
        }
    }
}

/// After one array element: either the closing bracket or a comma and
/// the elements that follow.
pub open spec fn sp_more_elems(s: Seq<char>, i: int) -> Option<(Seq<JVal>, int)>
    decreases s.len() - i, 2int,
{
    if !(0 <= i < s.len()) {
        None
    } else if spec_is_ws(s[i]) {
        sp_more_elems(s, i + 1)
    } else if s[i] == ']' {
        Some((Seq::empty(), i + 1))
    } else if s[i] == ',' {
        match sp_value(s, i + 1) {
            None => None,
            Some((v, j)) => if i + 1 < j <= s.len() {
                match sp_more_elems(s, j) {
                    None => None,
                    Some((rest, k)) => Some((seq![v] + rest, k)),
                }
            } else {
                None
            },
        }
    } else {
        None
    }
}

/// Reads one `"key": value` member after optional whitespace.
pub open spec fn sp_member(s: Seq<char>, i: int) -> Option<((Seq<char>, JVal), int)>
    decreases s.len() - i, 2int,
{
    if !(0 <= i < s.len()) {
        None
    } else if spec_is_ws(s[i]) {
        sp_member(s, i + 1)
    } else if s[i] == '"' {
        match sp_string(s, i + 1) {
            None => None,
            Some((key, j)) => if i + 1 < j <= s.len() {
                match sp_colon(s, j) {
                    None => None,
                    Some(k) => if j <= k <= s.len() {
                        match sp_value(s, k) {
                            None => None,
                            Some((v, m)) => if k < m <= s.len() {
                                Some(((key, v), m))
                            } else {
                                None
                            },
                        }
                    } else {
                        None
                    },
                }
            } else {
                None
            },
        }
    } else {
        None
    }
}

/// The position just after a colon that follows optional whitespace.
pub open spec fn sp_colon(s: Seq<char>, i: int) -> Option<int>
    decreases s.len() - i,
{
    if !(0 <= i < s.len()) {
        None
    } else if spec_is_ws(s[i]) {
        sp_colon(s, i + 1)
    } else if s[i] == ':' {
        Some(i + 1)
    } else {
        None
    }
}

/// Reads the members of an object, starting just after the opening
/// brace; yields them and the position just after the closing brace.
pub open spec fn sp_members(s: Seq<char>, i: int) -> Option<(Seq<(Seq<char>, JVal)>, int)>
    decreases s.len() - i, 3int,
{
    if !(0 <= i < s.len()) {
        None
    } else if spec_is_ws(s[i]) {
        sp_members(s, i + 1)
    } else if s[i] == '}' {
        Some((Seq::empty(), i + 1))
    } else {
        match sp_member(s, i) {
            None => None,
            Some((m, j)) => if i < j <= s.len() {
                match sp_more_members(s, j) {
                    None => None,
                    Some((rest, k)) => Some((seq![m] + rest, k)),
                }
            } else {
                None
            },
        }
    }
}

/// After one object member: either the closing brace or a comma and the
/// members that follow.
pub open spec fn sp_more_members(s: Seq<char>, i: int) -> Option<(Seq<(Seq<char>, JVal)>, int)>
    decreases s.len() - i, 3int,
{
    if !(0 <= i < s.len()) {
        None
    } else if spec_is_ws(s[i]) {
        sp_more_members(s, i + 1)
    } else if s[i] == '}' {
        Some((Seq::empty(), i + 1))
    } else if s[i] == ',' {
        match sp_member(s, i + 1) {
            None => None,
            Some((m, j)) => if i + 1 < j <= s.len() {
                match sp_more_members(s, j) {
                    None => None,
                    Some((rest, k)) => Some((seq![m] + rest, k)),
                }
            } else {
                None
            },
        }
    } else {
        None
    }
}

/// Whether everything from `i` on is whitespace.
pub open spec fn sp_ws_only(s: Seq<char>, i: int) -> bool
    decreases s.len() - i,
{
    if 0 <= i < s.len() {
        spec_is_ws(s[i]) && sp_ws_only(s, i + 1)
    } else {
        true
    }
}

/// What a whole text denotes: one value, with whitespace around it.
pub open spec fn sp_json(s: Seq<char>) -> Option<JVal> {
    match sp_value(s, 0) {
        None => None,
        Some((v, j)) => if sp_ws_only(s, j) {
            Some(v)
        } else {
            None
        },
    }
}

fn is_ws(c: char) -> (r: bool)
    ensures
        r == spec_is_ws(c),
{
    c == ' ' || c == '\t' || c == '\n' || c == '\r'
}

fn is_digit(c: char) -> (r: bool)
    ensures
        r == spec_is_digit(c),
{
    (c as u32) >= ('0' as u32) && (c as u32) <= ('9' as u32)
}

fn is_hex(c: char) -> (r: bool)
    ensures
        r == spec_is_hex(c),
{
    is_digit(c) || ((c as u32) >= ('a' as u32) && (c as u32) <= ('f' as u32)) || ((c as u32) >= (
    'A' as u32) && (c as u32) <= ('F' as u32))
}

fn hex_val(c: char) -> (r: u32)
    requires
        spec_is_hex(c),
    ensures
        r as int == spec_hex_val(c),
        r < 16,
{
    if is_digit(c) {
        (c as u32) - ('0' as u32)
    } else if (c as u32) >= ('a' as u32) && (c as u32) <= ('f' as u32) {
        (c as u32) - ('a' as u32) + 10
    } else {
        (c as u32) - ('A' as u32) + 10
    }
}

/// Relies on `char::from_u32`, which returns `Some` exactly for Unicode
/// scalar values.
#[verifier::external_body]
fn char_from_code(code: u32) -> (r: char)
    requires
        spec_is_scalar_code(code as int),
    ensures
        r == ((code as int) as u32) as char,
{
    char::from_u32(code).unwrap()
}

fn short_escape(e: char) -> (r: Option<char>)
    ensures
        r == spec_short_escape(e),
{
    if e == '"' { Some('"') }
    else if e == '\\' { Some('\\') }
    else if e == '/' { Some('/') }
    else if e == 'b' { Some('\u{0008}') }
    else if e == 'f' { Some('\u{000C}') }
    else if e == 'n' { Some('\n') }
    else if e == 'r' { Some('\r') }
    else if e == 't' { Some('\t') }
    else { None }
}

fn digits_end_x(s: &Vec<char>, i: usize) -> (r: usize)
    requires
        i <= s@.len(),
    ensures
        i <= r <= s@.len(),
        r as int == digits_end(s@, i as int),
    decreases s@.len() - i,
{
    if i < s.len() && is_digit(s[i]) {
        digits_end_x(s, i + 1)
    } else {
        i
    }
}

/// Copies `s[from..to]` into a fresh vector.
fn copy_range(s: &Vec<char>, from: usize, to: usize) -> (r: Vec<char>)
    requires
        from <= to <= s@.len(),
    ensures
        r@ == s@.subrange(from as int, to as int),
{
    let mut out: Vec<char> = Vec::new();
    let mut i: usize = from;
    while i < to
        invariant
            from <= i <= to <= s@.len(),
            out@ == s@.subrange(from as int, i as int),
        decreases to - i,
    {
        out.push(s[i]);
        i = i + 1;
        assert(out@ =~= s@.subrange(from as int, i as int));
    }
    out
}

fn p_string(s: &Vec<char>, i: usize) -> (r: Option<(Vec<char>, usize)>)
    requires
        i <= s@.len(),
    ensures
        match (r, sp_string(s@, i as int)) {
            (Some((t, j)), Some((st, sj))) => t@ == st && j as int == sj && i < j <= s@.len(),
            (None, None) => true,
            _ => false,
        },
    decreases s@.len() - i,
{
    let n = s.len();
    if i >= n {
        return None;
    }
    let c = s[i];
    if c == '"' {
        Some((Vec::new(), i + 1))
    } else if c == '\\' {
        if n - i < 2 {
            return None;
        }
        let e = s[i + 1];
        if e == 'u' {
            if n - i >= 6 && is_hex(s[i + 2]) && is_hex(s[i + 3]) && is_hex(s[i + 4]) && is_hex(
                s[i + 5],
            ) {
                let code = hex_val(s[i + 2]) * 4096 + hex_val(s[i + 3]) * 256 + hex_val(s[i + 4])
                    * 16 + hex_val(s[i + 5]);
                if code < 0xD800 || (code >= 0xE000 && code <= 0xFFFF) {
                    let ch = char_from_code(code);
                    match p_string(s, i + 6) {
                        Some((mut t, j)) => {
                            let ghost tpre = t@;
                            t.insert(0, ch);
                            assert(t@ =~= seq![ch] + tpre);
                            Some((t, j))
                        },
                        None => None,
                    }
                } else {
                    None
                }
            } else {
                None
            }
        } else {
            match short_escape(e) {
                Some(ch) => match p_string(s, i + 2) {
                    Some((mut t, j)) => {
                        let ghost tpre = t@;
                        t.insert(0, ch);
                        assert(t@ =~= seq![ch] + tpre);
                        Some((t, j))
                    },
                    None => None,
                },
                None => None,
            }
        }
    } else if (c as u32) < 0x20 {
        None
    } else {
        match p_string(s, i + 1) {
            Some((mut t, j)) => {
                let ghost tpre = t@;
                t.insert(0, c);
                assert(t@ =~= seq![c] + tpre);
                Some((t, j))
            },
            None => None,
        }
    }
}

fn p_number(s: &Vec<char>, i: usize) -> (r: Option<(Vec<char>, usize)>)
    requires
        i <= s@.len(),
    ensures
        match (r, sp_number(s@, i as int)) {
            (Some((t, j)), Some((st, sj))) => t@ == st && j as int == sj && i < j <= s@.len(),
            (None, None) => true,
            _ => false,
        },
{
    let n = s.len();
    if i >= n {
        return None;
    }
    let a = if s[i] == '-' { i + 1 } else { i };
    if !(a < n && is_digit(s[a])) {
        return None;
    }
    let b = if s[a] == '0' {
        a + 1
    } else {
        let bb = digits_end_x(s, a + 1);
        assert(bb as int == digits_end(s@, a as int));
        bb
    };
    let after_frac: Option<usize> = if b < n && s[b] == '.' {
        let d = digits_end_x(s, b + 1);
        if d == b + 1 { None } else { Some(d) }
    } else {
        Some(b)
    };
    match after_frac {
        None => None,
        Some(c) => {
            let after_exp: Option<usize> = if c < n && (s[c] == 'e' || s[c] == 'E') {
                let e0 = if c + 1 < n && (s[c + 1] == '+' || s[c + 1] == '-') { c + 2 } else {
                    c + 1
                };
                let d = digits_end_x(s, e0);
                if d == e0 { None } else { Some(d) }
            } else {
                Some(c)
            };
            match after_exp {
                None => None,
                Some(e) => Some((copy_range(s, i, e), e)),
            }
        },
    }
}

fn p_value(s: &Vec<char>, i: usize) -> (r: Option<(JsonValue, usize)>)
    requires
        i <= s@.len(),
    ensures
        match (r, sp_value(s@, i as int)) {
            (Some((v, j)), Some((sv, sj))) => v@ == sv && j as int == sj && i < j <= s@.len(),
            (None, None) => true,
            _ => false,
        },
    decreases s@.len() - i, 1int,
{
    let n = s.len();
    if i >= n {
        return None;
    }
    let c = s[i];
    if is_ws(c) {
        return p_value(s, i + 1);
    }
    if c == 'n' {
        if n - i >= 4 && s[i + 1] == 'u' && s[i + 2] == 'l' && s[i + 3] == 'l' {
            Some((JsonValue::Null, i + 4))
        } else {
            None
        }
    } else if c == 't' {
        if n - i >= 4 && s[i + 1] == 'r' && s[i + 2] == 'u' && s[i + 3] == 'e' {
            Some((JsonValue::Bool(true), i + 4))
        } else {
            None
        }
    } else if c == 'f' {
        if n - i >= 5 && s[i + 1] == 'a' && s[i + 2] == 'l' && s[i + 3] == 's' && s[i + 4] == 'e' {
            Some((JsonValue::Bool(false), i + 5))
        } else {
            None
        }
    } else if c == '"' {
        match p_string(s, i + 1) {
            Some((t, j)) => Some((JsonValue::Str(crate::json::chars_to_string(&t)), j)),
            None => None,
        }
    } else if c == '[' {
        match p_elems(s, i + 1) {
            Some((items, j)) => {
                let v = JsonValue::Arr(items);
                proof {
                    let si = sp_elems(s@, i as int + 1)->Some_0.0;
                    assert(v@ == JVal::Arr(si));
                }
                Some((v, j))
            },
            None => None,
        }
    } else if c == '{' {
        match p_members(s, i + 1) {
            Some((members, j)) => {
                let v = JsonValue::Obj(members);
                proof {
                    let sm = sp_members(s@, i as int + 1)->Some_0.0;
                    assert(v@ == JVal::Obj(sm));
                }
                Some((v, j))
            },
            None => None,
        }
    } else if c == '-' || is_digit(c) {
        match p_number(s, i) {
            Some((t, j)) => Some((JsonValue::Num(crate::json::chars_to_string(&t)), j)),
            None => None,
        }
    } else {
        None
    }
}

fn p_elems(s: &Vec<char>, i: usize) -> (r: Option<(Vec<JsonValue>, usize)>)
    requires
        i <= s@.len(),
    ensures
        match (r, sp_elems(s@, i as int)) {
            (Some((items, j)), Some((si, sj))) => crate::json::views_of(items@) == si && j as int
                == sj && i < j <= s@.len(),
            (None, None) => true,
            _ => false,
        },
    decreases s@.len() - i, 2int,
{
    let n = s.len();
    if i >= n {
        return None;
    }
    let c = s[i];
    if is_ws(c) {
        return p_elems(s, i + 1);
    }
    if c == ']' {
        Some((Vec::new(), i + 1))
    } else {
        match p_value(s, i) {
            None => None,
            Some((v, j)) => match p_more_elems(s, j) {
                None => None,
                Some((mut rest, k)) => {
                    let ghost rpre = rest@;
                    rest.insert(0, v);
                    proof {
                        let sv = sp_value(s@, i as int)->Some_0.0;
                        let srest = sp_more_elems(s@, j as int)->Some_0.0;
                        assert(rest@ =~= seq![v] + rpre);
                        assert forall|q: int| 0 <= q < srest.len() + 1 implies
                            crate::json::views_of(rest@)[q] == (seq![sv] + srest)[q] by {
                            if q > 0 {
                                assert(crate::json::views_of(rpre)[q - 1] == srest[q - 1]);
                            }
                        }
                        assert(crate::json::views_of(rest@) =~= seq![sv] + srest);
                    }
                    Some((rest, k))
                },
            },
        }
    }
}

fn p_more_elems(s: &Vec<char>, i: usize) -> (r: Option<(Vec<JsonValue>, usize)>)
    requires
        i <= s@.len(),
    ensures
        match (r, sp_more_elems(s@, i as int)) {
            (Some((items, j)), Some((si, sj))) => crate::json::views_of(items@) == si && j as int
                == sj && i < j <= s@.len(),
            (None, None) => true,
            _ => false,
        },
    decreases s@.len() - i, 2int,
{
    let n = s.len();
    if i >= n {
        return None;
    }
    let c = s[i];
    if is_ws(c) {
        return p_more_elems(s, i + 1);
    }
    if c == ']' {
        Some((Vec::new(), i + 1))
    } else if c == ',' {
        match p_value(s, i + 1) {
            None => None,
            Some((v, j)) => match p_more_elems(s, j) {
                None => None,
                Some((mut rest, k)) => {
                    let ghost rpre = rest@;
                    rest.insert(0, v);
                    proof {
                        let sv = sp_value(s@, i as int + 1)->Some_0.0;
                        let srest = sp_more_elems(s@, j as int)->Some_0.0;
                        assert(rest@ =~= seq![v] + rpre);
                        assert forall|q: int| 0 <= q < srest.len() + 1 implies
                            crate::json::views_of(rest@)[q] == (seq![sv] + srest)[q] by {
                            if q > 0 {
                                assert(crate::json::views_of(rpre)[q - 1] == srest[q - 1]);
                            }
                        }
                        assert(crate::json::views_of(rest@) =~= seq![sv] + srest);
                    }
                    Some((rest, k))
                },
            },
        }
    } else {
        None
    }
}

fn p_colon(s: &Vec<char>, i: usize) -> (r: Option<usize>)
    requires
        i <= s@.len(),
    ensures
        match (r, sp_colon(s@, i as int)) {
            (Some(j), Some(sj)) => j as int == sj && i < j <= s@.len(),
            (None, None) => true,
            _ => false,
        },
    decreases s@.len() - i,
{
    let n = s.len();
    if i >= n {
        return None;
    }
    let c = s[i];
    if is_ws(c) {
        p_colon(s, i + 1)
    } else if c == ':' {
        Some(i + 1)
    } else {
        None
    }
}

fn p_member(s: &Vec<char>, i: usize) -> (r: Option<((String, JsonValue), usize)>)
    requires
        i <= s@.len(),
    ensures
        match (r, sp_member(s@, i as int)) {
            (Some(((key, v), j)), Some((sm, sj))) => key@ == sm.0 && v@ == sm.1 && j as int == sj
                && i < j <= s@.len(),
            (None, None) => true,
            _ => false,
        },
    decreases s@.len() - i, 2int,
{
    let n = s.len();
    if i >= n {
        return None;
    }
    let c = s[i];
    if is_ws(c) {
        return p_member(s, i + 1);
    }
    if c == '"' {
        match p_string(s, i + 1) {
            None => None,
            Some((key, j)) => match p_colon(s, j) {
                None => None,
                Some(k) => match p_value(s, k) {
                    None => None,
                    Some((v, m)) => Some(((crate::json::chars_to_string(&key), v), m)),
                },
            },
        }
    } else {
        None
    }
}

fn p_members(s: &Vec<char>, i: usize) -> (r: Option<(Vec<(String, JsonValue)>, usize)>)
    requires
        i <= s@.len(),
    ensures
        match (r, sp_members(s@, i as int)) {
            (Some((members, j)), Some((sm, sj))) => crate::json::member_views_of(members@) == sm
                && j as int == sj && i < j <= s@.len(),
            (None, None) => true,
            _ => false,
        },
    decreases s@.len() - i, 3int,
{
    let n = s.len();
    if i >= n {
        return None;
    }
    let c = s[i];
    if is_ws(c) {
        return p_members(s, i + 1);
    }
    if c == '}' {
        Some((Vec::new(), i + 1))
    } else {
        match p_member(s, i) {
            None => None,
            Some((m, j)) => match p_more_members(s, j) {
                None => None,
                Some((mut rest, k)) => {
                    let ghost rpre = rest@;
                    rest.insert(0, m);
                    proof {
                        let sm = sp_member(s@, i as int)->Some_0.0;
                        let srest = sp_more_members(s@, j as int)->Some_0.0;
                        assert(rest@ =~= seq![m] + rpre);
                        assert forall|q: int| 0 <= q < srest.len() + 1 implies
                            crate::json::member_views_of(rest@)[q] == (seq![sm] + srest)[q] by {
                            if q > 0 {
                                assert(crate::json::member_views_of(rpre)[q - 1] == srest[q - 1]);
                            }
                        }
                        assert(crate::json::member_views_of(rest@) =~= seq![sm] + srest);
                    }
                    Some((rest, k))
                },
            },
        }
    }
}

fn p_more_members(s: &Vec<char>, i: usize) -> (r: Option<(Vec<(String, JsonValue)>, usize)>)
    requires
        i <= s@.len(),
    ensures
        match (r, sp_more_members(s@, i as int)) {
            (Some((members, j)), Some((sm, sj))) => crate::json::member_views_of(members@) == sm
                && j as int == sj && i < j <= s@.len(),
            (None, None) => true,
            _ => false,
        },
    decreases s@.len() - i, 3int,
{
    let n = s.len();
    if i >= n {
        return None;
    }
    let c = s[i];
    if is_ws(c) {
        return p_more_members(s, i + 1);
    }
    if c == '}' {
        Some((Vec::new(), i + 1))
    } else if c == ',' {
        match p_member(s, i + 1) {
            None => None,
            Some((m, j)) => match p_more_members(s, j) {
                None => None,
                Some((mut rest, k)) => {
                    let ghost rpre = rest@;
                    rest.insert(0, m);
                    proof {
                        let sm = sp_member(s@, i as int + 1)->Some_0.0;
                        let srest = sp_more_members(s@, j as int)->Some_0.0;
                        assert(rest@ =~= seq![m] + rpre);
                        assert forall|q: int| 0 <= q < srest.len() + 1 implies
                            crate::json::member_views_of(rest@)[q] == (seq![sm] + srest)[q] by {
                            if q > 0 {
                                assert(crate::json::member_views_of(rpre)[q - 1] == srest[q - 1]);
                            }
                        }
                        assert(crate::json::member_views_of(rest@) =~= seq![sm] + srest);
                    }
                    Some((rest, k))
                },
            },
        }
    } else {
        None
    }
}

fn ws_only_x(s: &Vec<char>, i: usize) -> (r: bool)
    requires
        i <= s@.len(),
    ensures
        r == sp_ws_only(s@, i as int),
    decreases s@.len() - i,
{
    if i < s.len() {
        if is_ws(s[i]) {
            ws_only_x(s, i + 1)
        } else {
            false
        }
    } else {
        true
    }
}

/// Reads a whole JSON text; returns the value exactly when the text
/// conforms to the grammar [`sp_json`].
pub fn parse_json(s: &str) -> (r: Option<JsonValue>)
    ensures
        match (r, sp_json(s@)) {
            (Some(v), Some(sv)) => v@ == sv,
            (None, None) => true,
            _ => false,
        },
{
    let mut chars: Vec<char> = Vec::new();
    crate::json::push_chars(s, &mut chars);
    match p_value(&chars, 0) {
        None => None,
        Some((v, j)) => {
            if ws_only_x(&chars, j) {
                Some(v)
            } else {
                None
            }
        },
    }
}

} // verus!
