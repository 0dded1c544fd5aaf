//! Text form of session tokens.
//!
//! A session token travels in a cookie as the decimal form of a 128-bit
//! value. This module renders a token as decimal text and reads it back,
//! accepting exactly what the standard library's integer parsing accepts:
//! an optional leading plus sign followed by one or more digits whose value
//! fits in the token type.

use vstd::prelude::*;
use vstd::string::StrSliceExecFns;

verus! {

/// Relies on std's String::push: appends the given character to the end of
/// the string.
pub assume_specification[ String::push ](s: &mut String, c: char)
    ensures
        final(s)@ == old(s)@.push(c),
;

pub open spec fn is_digit(c: char) -> bool {
    48 <= c as u32 && c as u32 <= 57
}

pub open spec fn digit_val(c: char) -> int {
    c as u32 - 48
}

pub open spec fn all_digits(s: Seq<char>) -> bool {
    forall|i: int| 0 <= i < s.len() ==> is_digit(#[trigger] s[i])
}

/// Value of a digit sequence read as a decimal number, most significant
/// digit first.
pub open spec fn dec_value(s: Seq<char>) -> int
    decreases s.len(),
{
    if s.len() == 0 {
        0
    } else {
        dec_value(s.drop_last()) * 10 + digit_val(s.last())
    }
}

/// What parsing a candidate token string yields: the decimal value of the
/// digits after an optional leading plus sign, provided there is at least
/// one digit, nothing but digits, and the value fits.
pub open spec fn spec_parse_session_token(s: Seq<char>) -> Option<u128> {
    let digits = if s.len() > 0 && s[0] as u32 == 43 {
        s.drop_first()
    } else {
        s
    };
    if digits.len() > 0 && all_digits(digits) && dec_value(digits) <= u128::MAX {
        Some(dec_value(digits) as u128)
    } else {
        None
    }
}

pub open spec fn digit_char(d: int) -> char {
    if d == 0 {
        '0'
    } else if d == 1 {
        '1'
    } else if d == 2 {
        '2'
    } else if d == 3 {
        '3'
    } else if d == 4 {
        '4'
    } else if d == 5 {
        '5'
    } else if d == 6 {
        '6'
    } else if d == 7 {
        '7'
    } else if d == 8 {
        '8'
    } else {
        '9'
    }
}

/// Decimal rendering of a nonnegative value, most significant digit first.
pub open spec fn spec_format_u128(v: int) -> Seq<char>
    decreases v,
{
    if v < 10 {
        seq![digit_char(v)]
    } else {
        spec_format_u128(v / 10).push(digit_char(v % 10))
    }
}

proof fn lemma_digit_char(d: int)
    requires
        0 <= d <= 9,
    ensures
        is_digit(digit_char(d)),
        digit_val(digit_char(d)) == d,
{
}

proof fn lemma_dec_value_prefix_step(s: Seq<char>, m: int)
    requires
        0 <= m < s.len(),
    ensures
        dec_value(s.take(m + 1)) == dec_value(s.take(m)) * 10 + digit_val(s[m]),
{
    assert(s.take(m + 1).drop_last() =~= s.take(m));
    assert(s.take(m + 1).last() == s[m]);
}

proof fn lemma_dec_value_nonneg(s: Seq<char>)
    requires
        all_digits(s),
    ensures
        dec_value(s) >= 0,
    decreases s.len(),
{
    if s.len() > 0 {
        assert(all_digits(s.drop_last()));
        lemma_dec_value_nonneg(s.drop_last());
    }
}

/// Reading more digits never shrinks the value.
proof fn lemma_dec_value_prefix_bound(s: Seq<char>, m: int)
    requires
        all_digits(s),
        0 <= m <= s.len(),
    ensures
        dec_value(s) >= dec_value(s.take(m)),
    decreases s.len() - m,
{
    if m == s.len() {
        assert(s.take(m) =~= s);
    } else {
        lemma_dec_value_prefix_step(s, m);
        assert(all_digits(s.take(m)));
        lemma_dec_value_nonneg(s.take(m));
        lemma_dec_value_prefix_bound(s, m + 1);
    }
}

/// Reads a session token from its cookie text. Yields the token exactly
/// when the text is an optional plus sign followed by one or more digits
/// whose decimal value fits in the token type.
pub fn parse_session_token(s: &str) -> (r: Option<u128>)
    ensures
        r == spec_parse_session_token(s@),
{
    let len: usize = s.unicode_len();
    if len == 0 {
        return None;
    }
    let first: char = s.get_char(0);
    let start: usize = if first as u32 == 43 {
        1
    } else {
        0
    };
    let ghost digits: Seq<char> = s@.subrange(start as int, len as int);
    proof {
        if start == 1 {
            assert(digits =~= s@.drop_first());
        } else {
            assert(digits =~= s@);
        }
    }
    if len == start {
        return None;
    }
    let mut acc: u128 = 0;
    let mut i: usize = start;
    while i < len
        invariant
            start <= i <= len,
            len == s@.len(),
            start == 0 || start == 1,
            start < len,
            digits == s@.subrange(start as int, len as int),
            spec_parse_session_token(s@) == (if digits.len() > 0 && all_digits(digits)
                && dec_value(digits) <= u128::MAX {
                Some(dec_value(digits) as u128)
            } else {
                Option::<u128>::None
            }),
            all_digits(digits.take(i - start)),
            acc as int == dec_value(digits.take(i - start)),
        decreases len - i,
    {
        let c: char = s.get_char(i);
        let v: u32 = c as u32;
        proof {
            assert(digits[i - start] == s@[i as int]);
        }
        if v < 48 || v > 57 {
            proof {
                assert(!is_digit(digits[i - start]));
                assert(!all_digits(digits));
            }
            return None;
        }
        let d: u128 = (v - 48) as u128;
        proof {
            lemma_dec_value_prefix_step(digits, i - start);
        }
        if acc > (u128::MAX - d) / 10 {
            proof {
                let x: int = u128::MAX - d;
                assert((x / 10) * 10 >= x - 9) by (nonlinear_arith)
                    requires
                        x >= 0,
                ;
                assert(acc as int * 10 >= (x / 10) * 10 + 10) by (nonlinear_arith)
                    requires
                        acc as int >= x / 10 + 1,
                ;
                assert(dec_value(digits.take(i - start + 1)) > u128::MAX);
                if all_digits(digits) {
                    lemma_dec_value_prefix_bound(digits, i - start + 1);
                    assert(dec_value(digits) > u128::MAX);
                }
            }
            return None;
        }
        proof {
            let x: int = u128::MAX - d;
            assert(acc as int * 10 <= (x / 10) * 10) by (nonlinear_arith)
                requires
                    0 <= acc as int <= x / 10,
            ;
            assert((x / 10) * 10 <= x) by (nonlinear_arith)
                requires
                    x >= 0,
            ;
            assert(digits.take(i - start + 1) =~= digits.take(i - start).push(digits[i - start]));
        }
        acc = acc * 10 + d;
        i = i + 1;
    }
    proof {
        assert(digits.take(i - start) =~= digits);
    }
    Some(acc)
}

fn digit_char_exec(d: u128) -> (c: char)
    requires
        d <= 9,
    ensures
        c == digit_char(d as int),
{
    if d == 0 {
        '0'
    } else if d == 1 {
        '1'
    } else if d == 2 {
        '2'
    } else if d == 3 {
        '3'
    } else if d == 4 {
        '4'
    } else if d == 5 {
        '5'
    } else if d == 6 {
        '6'
    } else if d == 7 {
        '7'
    } else if d == 8 {
        '8'
    } else {
        '9'
    }
}

/// Renders a session token as the decimal text carried by the cookie.
pub fn format_session_token(v: u128) -> (r: String)
    ensures
        r@ == spec_format_u128(v as int),
{
    let mut digits: Vec<char> = Vec::new();
    let mut rem: u128 = v;
    if rem == 0 {
        let mut out = String::new();
        out.push('0');
        return out;
    }
    while rem > 0
        invariant
            rem > 0 ==> spec_format_u128(v as int) == spec_format_u128(rem as int)
                + digits@.reverse(),
            rem == 0 ==> digits@.len() > 0 && spec_format_u128(v as int) == digits@.reverse(),
        decreases rem,
    {
        let ghost r0: int = rem as int;
        let ghost pre: Seq<char> = digits@;
        let d: u128 = rem % 10;
        digits.push(digit_char_exec(d));
        rem = rem / 10;
        proof {
            let x: char = digit_char(d as int);
            assert(pre.push(x).reverse() =~= seq![x] + pre.reverse());
            if r0 < 10 {
                assert(d as int == r0);
                assert(spec_format_u128(r0) == seq![x]);
                assert(spec_format_u128(v as int) =~= pre.push(x).reverse());
            } else {
                assert(spec_format_u128(r0) == spec_format_u128(r0 / 10).push(
                    digit_char(r0 % 10),
                ));
                assert(spec_format_u128(r0 / 10).push(x) + pre.reverse() =~= spec_format_u128(
                    r0 / 10,
                ) + (seq![x] + pre.reverse()));
                assert(spec_format_u128(v as int) =~= spec_format_u128(rem as int)
                    + digits@.reverse());
            }
        }
    }
    let mut out = String::new();
    let n: usize = digits.len();
    let mut i: usize = n;
    while i > 0
        invariant
            0 <= i <= n,
            n == digits@.len(),
            spec_format_u128(v as int) == digits@.reverse(),
            out@ == digits@.reverse().take(n - i),
        decreases i,
    {
        i = i - 1;
        out.push(digits[i]);
        proof {
            assert(digits@.reverse().take(n - i) =~= digits@.reverse().take(n - i - 1).push(
                digits@[i as int],
            ));
        }
    }
    proof {
        assert(digits@.reverse().take(n as int) =~= digits@.reverse());
    }
    out
}

/// Decimal rendering of a signed value: a minus sign before the digits of
/// the magnitude when the value is negative.
pub open spec fn spec_format_i64(v: int) -> Seq<char> {
    if v < 0 {
        seq!['-'] + spec_format_u128(-v)
    } else {
        spec_format_u128(v)
    }
}

/// Renders a user id as decimal text, as carried in error records.
pub fn format_i64(v: i64) -> (r: String)
    ensures
        r@ == spec_format_i64(v as int),
{
    if v >= 0 {
        format_session_token(v as u128)
    } else {
        let wide: i128 = v as i128;
        let mag: u128 = (-wide) as u128;
        let digits = format_session_token(mag);
        let mut out = String::new();
        out.push('-');
        out.append(digits.as_str());
        proof {
            assert(out@ =~= seq!['-'] + spec_format_u128(mag as int));
        }
        out
    }
}

proof fn lemma_format_digits(v: int)
    requires
        v >= 0,
    ensures
        spec_format_u128(v).len() >= 1,
        all_digits(spec_format_u128(v)),
        dec_value(spec_format_u128(v)) == v,
    decreases v,
{
    if v < 10 {
        lemma_digit_char(v);
        let s = spec_format_u128(v);
        assert(s =~= seq![digit_char(v)]);
        assert(s.drop_last() =~= Seq::<char>::empty());
        assert(dec_value(s.drop_last()) == 0);
        assert(s.last() == digit_char(v));
        assert(dec_value(s) == digit_val(digit_char(v)));
    } else {
        lemma_format_digits(v / 10);
        lemma_digit_char(v % 10);
        let rec = spec_format_u128(v / 10);
        let x = digit_char(v % 10);
        assert(rec.push(x).drop_last() =~= rec);
        assert(rec.push(x).last() == x);
        assert(forall|i: int|
            0 <= i < rec.push(x).len() ==> is_digit(#[trigger] rec.push(x)[i]));
        assert(dec_value(rec.push(x)) == (v / 10) * 10 + (v % 10));
        assert((v / 10) * 10 + (v % 10) == v) by (nonlinear_arith)
            requires
                v >= 0,
        ;
    }
}

/// The decimal rendering of a token always reads back as that token:
/// formatting and parsing are mutually inverse on every token value.
pub proof fn lemma_session_token_text_round_trip(v: u128)
    ensures
        spec_parse_session_token(spec_format_u128(v as int)) == Some(v),
{
    lemma_format_digits(v as int);
    let s = spec_format_u128(v as int);
    assert(is_digit(s[0]));
    assert(s[0] as u32 != 43);
}

} // verus!
