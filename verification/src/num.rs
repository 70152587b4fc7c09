//! Decimal rendering and parsing of unsigned integers, as `Display` and
//! `str::parse` do it for Rust's unsigned integer types.
use vstd::prelude::*;
use vstd::arithmetic::div_mod::lemma_div_denominator;

verus! {

pub open spec fn digit_char(d: nat) -> char {
    (48 + d) as char
}

/// The decimal digits of `n`, without leading zeros.
pub open spec fn dec(n: nat) -> Seq<char>
    decreases n,
{
    if n < 10 {
        seq![digit_char(n)]
    } else {
        dec(n / 10).push(digit_char(n % 10))
    }
}

pub fn digit(d: u64) -> (c: char)
    requires
        d < 10,
    ensures
        c == digit_char(d as nat),
{
    let b: u8 = (48 + d) as u8;
    b as char
}

/// The decimal digits of `n`.
pub fn dec_chars(n: u64) -> (r: Vec<char>)
    ensures
        r@ == dec(n as nat),
    decreases n,
{
    if n < 10 {
        let mut r: Vec<char> = Vec::new();
        r.push(digit(n));
        assert(r@ =~= seq![digit_char(n as nat)]);
        r
    } else {
        let mut r = dec_chars(n / 10);
        r.push(digit(n % 10));
        r
    }
}

/// The decimal rendering of `n` as a string (`n.to_string()`).
pub fn dec_string(n: u64) -> (r: String)
    ensures
        r@ == dec(n as nat),
{
    let v = dec_chars(n);
    crate::text::string_of(&v)
}

pub open spec fn is_digit(c: char) -> bool {
    '0' <= c && c <= '9'
}

pub open spec fn digit_value(c: char) -> nat {
    (c as nat - 48) as nat
}

/// The number that a string of decimal digits denotes.
pub open spec fn digits_value(s: Seq<char>) -> nat
    decreases s.len(),
{
    if s.len() == 0 {
        0
    } else {
        digits_value(s.drop_last()) * 10 + digit_value(s.last())
    }
}

pub open spec fn all_digits(s: Seq<char>) -> bool {
    forall|i: int| 0 <= i < s.len() ==> is_digit(#[trigger] s[i])
}

/// The digits that `str::parse` reads for an unsigned type: an optional
/// leading `+`, then at least one character.
pub open spec fn unsigned_body(s: Seq<char>) -> Option<Seq<char>> {
    if s.len() > 0 && s[0] == '+' {
        if s.len() > 1 {
            Some(s.drop_first())
        } else {
            None
        }
    } else if s.len() > 0 {
        Some(s)
    } else {
        None
    }
}

/// `str::parse` for an unsigned integer type whose greatest value is `max`.
pub open spec fn parse_uint(s: Seq<char>, max: nat) -> Option<nat> {
    match unsigned_body(s) {
        Some(d) => if all_digits(d) && digits_value(d) <= max {
            Some(digits_value(d))
        } else {
            None
        },
        None => None,
    }
}

proof fn lemma_digits_value_grows(s: Seq<char>, k: int)
    requires
        0 <= k <= s.len(),
    ensures
        digits_value(s.take(k)) <= digits_value(s),
    decreases s.len() - k,
{
    if k < s.len() {
        lemma_digits_value_grows(s.drop_last(), k);
        assert(s.drop_last().take(k) =~= s.take(k));
    } else {
        assert(s.take(k) =~= s);
    }
}

/// Parses an unsigned decimal number not greater than `max`.
pub fn parse_uint_chars(s: &Vec<char>, max: u64) -> (r: Option<u64>)
    ensures
        r == (match parse_uint(s@, max as nat) {
            Some(v) => Some(v as u64),
            None => None::<u64>,
        }),
{
    if s.len() == 0 {
        return None;
    }
    let start: usize = if s[0] == '+' {
        1
    } else {
        0
    };
    if start == 1 && s.len() == 1 {
        return None;
    }
    let ghost body = s@.skip(start as int);
    assert(unsigned_body(s@) == Some(body)) by {
        if start == 1 {
            assert(s@.drop_first() =~= body);
        } else {
            assert(s@ =~= body);
        }
    }
    let mut acc: u128 = 0;
    let mut i: usize = start;
    assert(body.take(0) =~= seq![]);
    while i < s.len()
        invariant
            start <= i <= s.len(),
            body == s@.skip(start as int),
            unsigned_body(s@) == Some(body),
            acc as nat == digits_value(body.take(i - start)),
            acc <= max,
            all_digits(body.take(i - start)),
        decreases s.len() - i,
    {
        let c = s[i];
        let ghost t = body.take(i - start + 1);
        assert(t.drop_last() =~= body.take(i - start));
        assert(t.last() == c);
        if !('0' <= c && c <= '9') {
            assert(!all_digits(body)) by {
                assert(!is_digit(body[i - start]));
            }
            assert(parse_uint(s@, max as nat) is None);
            return None;
        }
        let d = (c as u32 - 48) as u128;
        assert(acc * 10 + d <= u64::MAX as u128 * 10 + 9) by (nonlinear_arith)
            requires
                acc <= u64::MAX,
                d <= 9,
        ;
        acc = acc * 10 + d;
        assert(all_digits(t)) by {
            assert forall|j: int| 0 <= j < t.len() implies is_digit(#[trigger] t[j]) by {
                if j < t.len() - 1 {
                    assert(t[j] == body.take(i - start)[j]);
                }
            }
        }
        if acc > max as u128 {
            proof {
                lemma_digits_value_grows(body, i - start + 1);
            }
            assert(digits_value(body) > max);
            assert(parse_uint(s@, max as nat) is None);
            return None;
        }
        i += 1;
    }
    assert(body.take(i - start) =~= body);
    Some(acc as u64)
}

/// `str::parse::<u32>`.
pub fn parse_u32(s: &Vec<char>) -> (r: Option<u32>)
    ensures
        r == (match parse_uint(s@, u32::MAX as nat) {
            Some(v) => Some(v as u32),
            None => None::<u32>,
        }),
{
    match parse_uint_chars(s, u32::MAX as u64) {
        Some(v) => Some(v as u32),
        None => None,
    }
}

/// `str::parse::<u64>`.
pub fn parse_u64(s: &Vec<char>) -> (r: Option<u64>)
    ensures
        r == (match parse_uint(s@, u64::MAX as nat) {
            Some(v) => Some(v as u64),
            None => None::<u64>,
        }),
{
    parse_uint_chars(s, u64::MAX)
}

// ---------------------------------------------------------------------------
// Two-decimal rendering of `n as f64 / d` (`format!("{:.2}", ..)`)
// ---------------------------------------------------------------------------

pub open spec fn pow2(e: nat) -> nat
    decreases e,
{
    if e == 0 {
        1
    } else {
        2 * pow2((e - 1) as nat)
    }
}

/// The number of low bits that an `f64` cannot hold for the integer `b`:
/// an `f64` has 53 significant bits.
pub open spec fn sig_shift(b: nat) -> nat
    decreases b,
{
    if b < 0x20000000000000 {
        0
    } else {
        1 + sig_shift(b / 2)
    }
}

/// `n / d` rounded to the nearest integer, ties to the even one.
pub open spec fn div_round_even(n: nat, d: nat) -> nat {
    let q = n / d;
    let r = n % d;
    if 2 * r > d || (2 * r == d && q % 2 == 1) {
        q + 1
    } else {
        q
    }
}

/// The value of `b as f64`: `b` rounded to 53 significant bits, ties to even.
pub open spec fn f64_value(b: nat) -> nat {
    let p = pow2(sig_shift(b));
    div_round_even(b, p) * p
}

/// Two decimal digits, with a leading zero.
pub open spec fn two_digits(n: nat) -> Seq<char> {
    seq![digit_char(n / 10), digit_char(n % 10)]
}

/// `format!("{:.2}", v)` where `v` is the exact number `n / d`: the value
/// rounded to hundredths, ties to even.
pub open spec fn fixed2(n: nat, d: nat) -> Seq<char> {
    let h = div_round_even(n * 100, d);
    dec(h / 100) + seq!['.'] + two_digits(h % 100)
}

proof fn lemma_pow2_pos(e: nat)
    ensures
        pow2(e) >= 1,
    decreases e,
{
    if e > 0 {
        lemma_pow2_pos((e - 1) as nat);
    }
}

/// The integer that `b as f64` holds.
pub fn f64_of(b: u64) -> (r: u128)
    ensures
        r as nat == f64_value(b as nat),
        r <= 0x10000000000000000,
{
    let ghost bn = b as nat;
    let mut p: u128 = 1;
    let mut v: u128 = b as u128;
    let ghost mut s: nat = 0;
    assert(bn / 1 == bn);
    while v >= 0x20000000000000
        invariant
            p as nat == pow2(s),
            v as nat == bn / pow2(s),
            sig_shift(bn) == s + sig_shift(v as nat),
            p <= 0x800,
            s <= 11,
            bn <= u64::MAX,
        decreases v,
    {
        proof {
            lemma_pow2_pos(s);
            lemma_div_denominator(bn as int, pow2(s) as int, 2);
            assert(pow2(s + 1) == 2 * pow2(s));
            assert(pow2(s) * 2 == pow2(s + 1));
            if s >= 11 {
                assert(p >= 0x800) by {
                    assert(pow2(11) == 0x800) by {
                        reveal_with_fuel(pow2, 12);
                    }
                    lemma_pow2_mono(11, s);
                }
                assert(v as nat * p as nat <= bn) by (nonlinear_arith)
                    requires v as nat == bn / (p as nat), p as nat >= 1;
                assert(v as nat * p as nat >= 0x20000000000000 * 0x800) by (nonlinear_arith)
                    requires v >= 0x20000000000000, p >= 0x800;
                assert(false);
            }
        }
        v = v / 2;
        p = p * 2;
        proof {
            s = s + 1;
        }
    }
    proof {
        lemma_pow2_pos(s);
    }
    let q = (b as u128) / p;
    let r = (b as u128) % p;
    let q2 = if 2 * r > p || (2 * r == p && q % 2 == 1) {
        q + 1
    } else {
        q
    };
    assert(q * p <= b) by (nonlinear_arith)
        requires q == (b as u128) / p, p >= 1;
    assert(q == v);
    assert(q2 * p <= 0x10000000000000000) by (nonlinear_arith)
        requires q < 0x20000000000000, q2 <= q + 1, p <= 0x800;
    q2 * p
}

proof fn lemma_pow2_mono(a: nat, b: nat)
    requires
        a <= b,
    ensures
        pow2(a) <= pow2(b),
    decreases b,
{
    if a < b {
        lemma_pow2_mono(a, (b - 1) as nat);
    }
}

/// Renders `n / d` with two decimals, rounding ties to even.
pub fn fixed2_chars(n: u128, d: u128) -> (r: Vec<char>)
    requires
        d > 0,
        n <= 0x10000000000000000,
        d >= 1024,
        d <= 0x10000000000000000,
    ensures
        r@ == fixed2(n as nat, d as nat),
{
    let m = n * 100;
    let q = m / d;
    let rem = m % d;
    let h = if 2 * rem > d || (2 * rem == d && q % 2 == 1) {
        q + 1
    } else {
        q
    };
    assert(q <= m) by (nonlinear_arith)
        requires q == m / d, d >= 1;
    assert(h as nat == div_round_even(n as nat * 100, d as nat));
    assert(q * 1024 <= m) by (nonlinear_arith)
        requires q == m / d, d >= 1024;
    assert(h < 0x10000000000000000);
    let h64 = h as u64;
    let mut out = dec_chars(h64 / 100);
    out.push('.');
    let low = h64 % 100;
    out.push(digit(low / 10));
    out.push(digit(low % 10));
    assert(out@ =~= dec((h / 100) as nat) + seq!['.'] + two_digits((h % 100) as nat));
    out
}

} // verus!
