//! Decimal integers as text: reading them the way `str::parse` does for
//! `u32`, `i32` and `i64`, and writing them the way `format!("{}")` does.
use vstd::prelude::*;
use vstd::string::*;
use crate::text::{chars_of, push_char};

verus! {

broadcast use vstd::string::group_string_axioms;

/// `c` is one of the ASCII digits `'0'..='9'`.
pub open spec fn is_digit(c: char) -> bool {
    '0' <= c && c <= '9'
}

/// The value of the digit `c`.
pub open spec fn digit_value(c: char) -> nat {
    (c as int - '0' as int) as nat
}

/// Every character of `s` is an ASCII digit.
pub open spec fn all_digits(s: Seq<char>) -> bool {
    forall|i: int| 0 <= i < s.len() ==> is_digit(#[trigger] s[i])
}

/// The number that the digits `s` spell in base ten.
pub open spec fn digits_value(s: Seq<char>) -> nat
    decreases s.len(),
{
    if s.len() == 0 {
        0
    } else {
        digits_value(s.drop_last()) * 10 + digit_value(s.last())
    }
}

/// A non-empty run of digits, read as a number.
pub open spec fn read_digits(d: Seq<char>) -> Option<nat> {
    if d.len() > 0 && all_digits(d) {
        Some(digits_value(d))
    } else {
        None
    }
}

/// The magnitude that `str::parse` reads for an unsigned type: an optional
/// `'+'`, then one or more digits.
pub open spec fn read_unsigned(s: Seq<char>) -> Option<nat> {
    if s.len() > 0 && s[0] == '+' {
        read_digits(s.drop_first())
    } else {
        read_digits(s)
    }
}

/// The number that `str::parse` reads for a signed type: an optional `'+'`
/// or `'-'`, then one or more digits.
pub open spec fn read_signed(s: Seq<char>) -> Option<int> {
    if s.len() > 0 && s[0] == '-' {
        match read_digits(s.drop_first()) {
            Some(v) => Some(-v),
            None => None,
        }
    } else {
        match read_unsigned(s) {
            Some(v) => Some(v as int),
            None => None,
        }
    }
}

/// `s.parse::<u32>().ok()`.
pub open spec fn parse_u32_spec(s: Seq<char>) -> Option<u32> {
    match read_unsigned(s) {
        Some(v) => if v <= u32::MAX {
            Some(v as u32)
        } else {
            None
        },
        None => None,
    }
}

/// `s.parse::<i32>().ok()`.
pub open spec fn parse_i32_spec(s: Seq<char>) -> Option<i32> {
    match read_signed(s) {
        Some(v) => if i32::MIN <= v <= i32::MAX {
            Some(v as i32)
        } else {
            None
        },
        None => None,
    }
}

/// `s.parse::<i64>().ok()`.
pub open spec fn parse_i64_spec(s: Seq<char>) -> Option<i64> {
    match read_signed(s) {
        Some(v) => if i64::MIN <= v <= i64::MAX {
            Some(v as i64)
        } else {
            None
        },
        None => None,
    }
}

/// The character of the digit `d` (`d < 10`).
pub open spec fn digit_char(d: nat) -> char {
    (d + '0' as nat) as char
}

/// The decimal text of `n`, without leading zeros.
pub open spec fn decimal(n: nat) -> Seq<char>
    decreases n,
{
    if n < 10 {
        seq![digit_char(n)]
    } else {
        decimal(n / 10).push(digit_char(n % 10))
    }
}

/// The decimal text of `i`, with a `'-'` when it is negative.
pub open spec fn signed_decimal(i: int) -> Seq<char> {
    if i < 0 {
        seq!['-'] + decimal((-i) as nat)
    } else {
        decimal(i as nat)
    }
}

/// A prefix of a run of digits is worth no more than the whole run.
pub proof fn lemma_digits_value_prefix(s: Seq<char>, k: int)
    requires
        0 <= k <= s.len(),
    ensures
        digits_value(s.take(k)) <= digits_value(s),
    decreases s.len(),
{
    if k < s.len() {
        lemma_digits_value_prefix(s.drop_last(), k);
        assert(s.drop_last().take(k) =~= s.take(k));
    } else {
        assert(s.take(k) =~= s);
    }
}

/// Reads digits once the sign is gone: `None` for an empty run, a non-digit,
/// or a value above `u64::MAX`.
fn digits_u64(cs: &Vec<char>, from: usize) -> (r: Option<u64>)
    requires
        from <= cs.len(),
    ensures
        r matches Some(v) ==> read_digits(cs@.skip(from as int)) == Some(v as nat),
        r is None ==> match read_digits(cs@.skip(from as int)) {
            Some(v) => v > u64::MAX,
            None => true,
        },
{
    let ghost d = cs@.skip(from as int);
    if from == cs.len() {
        return None;
    }
    let mut acc: u64 = 0;
    let mut i: usize = from;
    while i < cs.len()
        invariant
            from <= i <= cs.len(),
            d == cs@.skip(from as int),
            all_digits(d.take(i - from)),
            acc as nat == digits_value(d.take(i - from)),
        decreases cs.len() - i,
    {
        let c = cs[i];
        if !('0' <= c && c <= '9') {
            assert(!is_digit(d[i - from]));
            return None;
        }
        let dv: u64 = (c as u32 - '0' as u32) as u64;
        let ghost prefix = d.take(i + 1 - from);
        assert(prefix.drop_last() =~= d.take(i - from));
        assert(prefix.last() == c);
        if acc > (u64::MAX - dv) / 10 {
            proof {
                assert(acc * 10 + dv > u64::MAX) by (nonlinear_arith)
                    requires
                        acc > (u64::MAX - dv) / 10,
                        dv <= 9,
                ;
                lemma_digits_value_prefix(d, i + 1 - from);
                if all_digits(d) {
                    assert(digits_value(d) > u64::MAX);
                }
            }
            return None;
        }
        proof {
            assert(acc * 10 + dv <= u64::MAX) by (nonlinear_arith)
                requires
                    acc <= (u64::MAX - dv) / 10,
                    dv <= 9,
            ;
        }
        acc = acc * 10 + dv;
        i = i + 1;
        assert(all_digits(d.take(i - from))) by {
            assert forall|j: int| 0 <= j < i - from implies is_digit(#[trigger] d.take(i - from)[j]) by {
                if j < i - 1 - from {
                    assert(d.take(i - from)[j] == d.take(i - 1 - from)[j]);
                }
            }
        }
    }
    assert(d.take(cs.len() - from) =~= d);
    Some(acc)
}

/// `s.parse::<u32>().ok()` on characters.
pub fn parse_u32_chars(cs: &Vec<char>) -> (r: Option<u32>)
    ensures
        r == parse_u32_spec(cs@),
{
    let from: usize = if cs.len() > 0 && cs[0] == '+' { 1 } else { 0 };
    assert(cs@.skip(0) =~= cs@);
    assert(cs@.len() > 0 ==> cs@.skip(1) =~= cs@.drop_first());
    match digits_u64(cs, from) {
        Some(v) => if v <= u32::MAX as u64 {
            Some(v as u32)
        } else {
            None
        },
        None => None,
    }
}

/// `s.parse::<i64>().ok()` on characters.
pub fn parse_i64_chars(cs: &Vec<char>) -> (r: Option<i64>)
    ensures
        r == parse_i64_spec(cs@),
{
    assert(cs@.skip(0) =~= cs@);
    assert(cs@.len() > 0 ==> cs@.skip(1) =~= cs@.drop_first());
    if cs.len() > 0 && cs[0] == '-' {
        match digits_u64(cs, 1) {
            Some(v) => if v <= 9223372036854775808u64 {
                if v == 9223372036854775808u64 {
                    Some(i64::MIN)
                } else {
                    Some(-(v as i64))
                }
            } else {
                None
            },
            None => None,
        }
    } else {
        let from: usize = if cs.len() > 0 && cs[0] == '+' { 1 } else { 0 };
        match digits_u64(cs, from) {
            Some(v) => if v <= i64::MAX as u64 {
                Some(v as i64)
            } else {
                None
            },
            None => None,
        }
    }
}

/// `s.parse::<i32>().ok()` on characters.
pub fn parse_i32_chars(cs: &Vec<char>) -> (r: Option<i32>)
    ensures
        r == parse_i32_spec(cs@),
{
    match parse_i64_chars(cs) {
        Some(v) => if i32::MIN as i64 <= v && v <= i32::MAX as i64 {
            Some(v as i32)
        } else {
            None
        },
        None => {
            None
        },
    }
}

/// Appends the decimal text of `n` to `out`.
pub fn push_decimal(out: &mut String, n: u64)
    ensures
        final(out)@ == old(out)@ + decimal(n as nat),
    decreases n,
{
    if n >= 10 {
        push_decimal(out, n / 10);
    }
    let d: u64 = n % 10;
    let c: char = if d == 0 { '0' } else if d == 1 { '1' } else if d == 2 { '2' } else if d == 3 {
        '3'
    } else if d == 4 { '4' } else if d == 5 { '5' } else if d == 6 { '6' } else if d == 7 {
        '7'
    } else if d == 8 { '8' } else { '9' };
    assert(c == digit_char(d as nat));
    push_char(out, c);
    proof {
        if n >= 10 {
            assert(decimal(n as nat) == decimal((n / 10) as nat).push(digit_char((n % 10) as nat)));
        } else {
            assert(decimal(n as nat) == seq![digit_char(n as nat)]);
        }
    }
}

/// Appends the decimal text of `i`, with a `'-'` when negative.
pub fn push_signed_decimal(out: &mut String, i: i64)
    ensures
        final(out)@ == old(out)@ + signed_decimal(i as int),
{
    if i < 0 {
        push_char(out, '-');
        let m: u64 = if i == i64::MIN { 9223372036854775808u64 } else { (-i) as u64 };
        push_decimal(out, m);
    } else {
        push_decimal(out, i as u64);
    }
}

/// The decimal text of `n` (`n.to_string()`).
pub fn fmt_u64(n: u64) -> (s: String)
    ensures
        s@ == decimal(n as nat),
{
    let mut s = String::new();
    push_decimal(&mut s, n);
    s
}

/// Parses `s` as `str::parse::<u32>` does.
pub fn parse_u32(s: &str) -> (r: Option<u32>)
    ensures
        r == parse_u32_spec(s@),
{
    parse_u32_chars(&chars_of(s))
}

} // verus!
