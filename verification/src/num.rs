//! Decimal rendering and reading of the integers that travel in JSON
//! number lexemes.

use vstd::prelude::*;
use vstd::string::StrSliceExecFns;

use crate::json::spec_is_digit;

verus! {

/// The decimal digits of a non-negative integer, most significant first.
pub open spec fn dec_str_nat(n: int) -> Seq<char>
    decreases n,
{
    if n < 0 {
        Seq::empty()
    } else if n < 10 {
        seq![crate::json::spec_hex_digit(n as u32)]
    } else {
        dec_str_nat(n / 10) + seq![crate::json::spec_hex_digit((n % 10) as u32)]
    }
}

/// The decimal rendering of an integer, with a sign where negative.
pub open spec fn dec_str(n: int) -> Seq<char> {
    if n < 0 {
        seq!['-'] + dec_str_nat(-n)
    } else {
        dec_str_nat(n)
    }
}

/// The value of a digit string, read most significant first.
pub open spec fn dec_val(s: Seq<char>) -> int
    decreases s.len(),
{
    if s.len() == 0 {
        0
    } else {
        dec_val(s.drop_last()) * 10 + ((s.last() as u32) - ('0' as u32))
    }
}

pub open spec fn all_digits(s: Seq<char>) -> bool {
    forall|i: int| 0 <= i < s.len() ==> spec_is_digit(#[trigger] s[i])
}

/// What a signed decimal lexeme denotes, when it is one.
pub open spec fn spec_parse_int(s: Seq<char>) -> Option<int> {
    if s.len() > 0 && s[0] == '-' {
        if s.len() > 1 && all_digits(s.subrange(1, s.len() as int)) {
            Some(-dec_val(s.subrange(1, s.len() as int)))
        } else {
            None
        }
    } else if s.len() > 0 && all_digits(s) {
        Some(dec_val(s))
    } else {
        None
    }
}

fn push_dec_u64(n: u64, out: &mut Vec<char>)
    ensures
        final(out)@ == old(out)@ + dec_str_nat(n as int),
    decreases n,
{
    if n < 10 {
        out.push(crate::json::hex_digit(n as u32));
    } else {
        push_dec_u64(n / 10, out);
        out.push(crate::json::hex_digit((n % 10) as u32));
    }
}

/// Renders a non-negative machine integer in decimal.
pub fn u64_to_string(n: u64) -> (r: String)
    ensures
        r@ == dec_str(n as int),
{
    let mut buf: Vec<char> = Vec::new();
    push_dec_u64(n, &mut buf);
    crate::json::chars_to_string(&buf)
}

/// Renders a signed machine integer in decimal.
pub fn i64_to_string(n: i64) -> (r: String)
    ensures
        r@ == dec_str(n as int),
{
    let mut buf: Vec<char> = Vec::new();
    if n >= 0 {
        push_dec_u64(n as u64, &mut buf);
    } else {
        buf.push('-');
        let m: u64 = if n == i64::MIN {
            9223372036854775808u64
        } else {
            (-n) as u64
        };
        assert(m as int == -(n as int));
        push_dec_u64(m, &mut buf);
    }
    crate::json::chars_to_string(&buf)
}

/// Reads an unsigned decimal lexeme into a `u64`; `None` when the text
/// is not all digits or the value does not fit.
pub fn parse_u64(s: &str) -> (r: Option<u64>)
    ensures
        match r {
            Some(v) => s@.len() > 0 && all_digits(s@) && v as int == dec_val(s@),
            None => s@.len() == 0 || !all_digits(s@) || dec_val(s@) > u64::MAX,
        },
{
    let n = s.unicode_len();
    if n == 0 {
        return None;
    }
    let mut acc: u64 = 0;
    let mut i: usize = 0;
    while i < n
        invariant
            n == s@.len(),
            i <= n,
            all_digits(s@.subrange(0, i as int)),
            acc as int == dec_val(s@.subrange(0, i as int)),
        decreases n - i,
    {
        let c = s.get_char(i);
        let cu = c as u32;
        if cu < ('0' as u32) || cu > ('9' as u32) {
            assert(!spec_is_digit(s@[i as int]));
            return None;
        }
        let d: u64 = (cu - ('0' as u32)) as u64;
        if acc > (u64::MAX - d) / 10 {
            proof {
                let pre = s@.subrange(0, i as int);
                let cur = s@.subrange(0, i as int + 1);
                assert(cur.drop_last() =~= pre);
                assert(cur.last() == s@[i as int]);
                assert(dec_val(cur) == acc * 10 + d > u64::MAX);
                if all_digits(s@) {
                    lemma_dec_val_prefix_bound(s@, i as int + 1);
                }
            }
            return None;
        }
        let ghost pre = s@.subrange(0, i as int);
        acc = acc * 10 + d;
        i = i + 1;
        proof {
            let cur = s@.subrange(0, i as int);
            assert(cur.drop_last() =~= pre);
            assert(cur.last() == s@[i - 1]);
        }
    }
    proof {
        assert(s@.subrange(0, n as int) =~= s@);
    }
    Some(acc)
}

/// A digit string's value only grows when digits are appended.
proof fn lemma_dec_val_prefix_bound(s: Seq<char>, k: int)
    requires
        0 <= k <= s.len(),
        all_digits(s),
    ensures
        dec_val(s.subrange(0, k)) <= dec_val(s),
    decreases s.len() - k,
{
    if k < s.len() {
        lemma_dec_val_prefix_bound(s, k + 1);
        let a = s.subrange(0, k);
        let b = s.subrange(0, k + 1);
        assert(b.drop_last() =~= a);
        assert(dec_val(b) == dec_val(a) * 10 + ((b.last() as u32) - ('0' as u32)));
        lemma_dec_val_nonneg(a);
    } else {
        assert(s.subrange(0, k) =~= s);
    }
}

proof fn lemma_dec_val_nonneg(s: Seq<char>)
    ensures
        all_digits(s) ==> dec_val(s) >= 0,
    decreases s.len(),
{
    if s.len() > 0 {
        lemma_dec_val_nonneg(s.drop_last());
        if all_digits(s) {
            assert(all_digits(s.drop_last()));
            assert(spec_is_digit(s.last()));
        }
    }
}

/// Reads a signed decimal lexeme into an `i64`.
pub fn parse_i64(s: &str) -> (r: Option<i64>)
    ensures
        match r {
            Some(v) => spec_parse_int(s@) == Some(v as int),
            None => spec_parse_int(s@) is None || (spec_parse_int(s@) matches Some(w) && !(
            i64::MIN <= w <= i64::MAX)),
        },
{
    let n = s.unicode_len();
    if n == 0 {
        return None;
    }
    if s.get_char(0) == '-' {
        let rest = s.substring_char(1, n);
        assert(rest@ =~= s@.subrange(1, n as int));
        match parse_u64(rest) {
            None => {
                proof {
                    if rest@.len() > 0 && all_digits(rest@) {
                        assert(dec_val(rest@) > u64::MAX >= i64::MAX);
                    }
                }
                None
            },
            Some(v) => {
                if v <= 9223372036854775807u64 {
                    Some(-(v as i64))
                } else if v == 9223372036854775808u64 {
                    Some(i64::MIN)
                } else {
                    None
                }
            },
        }
    } else {
        match parse_u64(s) {
            None => {
                proof {
                    if s@.len() > 0 && all_digits(s@) {
                        assert(dec_val(s@) > u64::MAX >= i64::MAX);
                    }
                }
                None
            },
            Some(v) => {
                if v <= 9223372036854775807u64 {
                    Some(v as i64)
                } else {
                    None
                }
            },
        }
    }
}

} // verus!
