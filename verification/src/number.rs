//! Numbers in text, read as the nearest double and accepted where that is a whole number.
//!
//! A number in text is the quotient of two integers; which double lies nearest to it is decided
//! on those, without rounding.

use vstd::prelude::*;
use crate::text;
use crate::text::chars_of;

verus! {

/// `10^e`.
pub open spec fn ten(e: nat) -> nat
    decreases e,
{
    if e == 0 {
        1
    } else {
        10 * ten((e - 1) as nat)
    }
}

/// `2^e`.
pub open spec fn two(e: nat) -> nat
    decreases e,
{
    if e == 0 {
        1
    } else {
        2 * two((e - 1) as nat)
    }
}

/// The exponent of the largest power of two that is at most `n`.
pub open spec fn log2(n: nat) -> nat
    decreases n,
{
    if n < 2 {
        0
    } else {
        1 + log2(n / 2)
    }
}

pub open spec fn is_digit(c: char) -> bool {
    '0' <= c <= '9'
}

pub open spec fn all_digits(s: Seq<char>) -> bool {
    forall|i: int| 0 <= i < s.len() ==> is_digit(#[trigger] s[i])
}

/// The value of a text of decimal digits.
pub open spec fn digits_value(s: Seq<char>) -> nat
    decreases s.len(),
{
    if s.len() == 0 {
        0
    } else {
        (digits_value(s.drop_last()) * 10 + (s.last() as u32 - 48)) as nat
    }
}

/// `s` without one leading sign.
pub open spec fn unsigned(s: Seq<char>) -> Seq<char> {
    if s.len() > 0 && (s[0] == '+' || s[0] == '-') {
        s.drop_first()
    } else {
        s
    }
}

/// Where the exponent of a number begins, or the end of the text.
pub open spec fn exponent_at(s: Seq<char>) -> int
    decreases s.len(),
{
    if s.len() == 0 || s[0] == 'e' || s[0] == 'E' {
        0
    } else {
        1 + exponent_at(s.drop_first())
    }
}

/// A number in text: its sign, its digits, and the power of ten that they are counted in.
pub struct Number {
    pub negative: bool,
    pub digits: Seq<char>,
    pub scale: int,
}

/// What follows the exponent letter, as an integer.
pub open spec fn exponent_value(s: Seq<char>) -> Option<int> {
    let digits = unsigned(s);
    if digits.len() == 0 || !all_digits(digits) {
        None
    } else if s[0] == '-' {
        Some(-(digits_value(digits) as int))
    } else {
        Some(digits_value(digits) as int)
    }
}

/// The digits behind the point of `s`.
pub open spec fn fraction(s: Seq<char>) -> Seq<char> {
    let whole = text::before(s, '.');
    if whole.len() < s.len() {
        s.subrange(whole.len() as int + 1, s.len() as int)
    } else {
        Seq::empty()
    }
}

/// The number that `s` writes: an optional sign, digits with at most one point among or around
/// them, and an optional exponent.
pub open spec fn number_of(s: Seq<char>) -> Option<Number> {
    let u = unsigned(s);
    let k = exponent_at(u);
    let mantissa = u.subrange(0, k);
    let digits = text::before(mantissa, '.') + fraction(mantissa);
    let exponent = if k < u.len() {
        exponent_value(u.subrange(k + 1, u.len() as int))
    } else {
        Some(0int)
    };
    if digits.len() > 0 && all_digits(digits) && exponent is Some {
        Some(
            Number {
                negative: s[0] == '-',
                digits,
                scale: exponent->0 - fraction(mantissa).len(),
            },
        )
    } else {
        None
    }
}

/// The double nearest to `a / b` is the whole number `n`: `a / b` lies no further from `n` than
/// half way to the next double on its side. Half ways belong to `n`, whose last bit is even.
pub open spec fn nearest_is(a: nat, b: nat, n: nat) -> bool {
    let e = log2(n);
    let above = (53 - e) as nat;
    let below = if two(e) == n {
        (54 - e) as nat
    } else {
        (53 - e) as nat
    };
    &&& (a - n * b) * two(above) <= b
    &&& (n * b - a) * two(below) <= b
}

/// The size of a number is `numerator / denominator`.
pub open spec fn numerator(x: Number) -> nat {
    if x.scale >= 0 {
        digits_value(x.digits) * ten(x.scale as nat)
    } else {
        digits_value(x.digits)
    }
}

/// The size of a number is `numerator / denominator`.
pub open spec fn denominator(x: Number) -> nat {
    if x.scale >= 0 {
        1
    } else {
        ten((-x.scale) as nat)
    }
}

/// `s` writes a number whose nearest double is `n`.
pub open spec fn reads_as(s: Seq<char>, n: nat) -> bool {
    match number_of(s) {
        None => false,
        Some(x) => !x.negative && nearest_is(numerator(x), denominator(x), n),
    }
}

/// `r` is the whole number from 1 to `max` that `s` reads as, if there is one.
pub open spec fn coerced(s: Seq<char>, max: nat, r: Option<u64>) -> bool {
    match r {
        Some(n) => 1 <= n <= max && reads_as(s, n as nat),
        None => forall|n: nat| 1 <= n <= max ==> !#[trigger] reads_as(s, n),
    }
}

pub proof fn lemma_two_positive(e: nat)
    ensures
        two(e) >= 1,
    decreases e,
{
    if e > 0 {
        lemma_two_positive((e - 1) as nat);
    }
}

pub proof fn lemma_ten_positive(e: nat)
    ensures
        ten(e) >= 1,
    decreases e,
{
    if e > 0 {
        lemma_ten_positive((e - 1) as nat);
    }
}

proof fn lemma_ten_adds(a: nat, b: nat)
    ensures
        ten(a + b) == ten(a) * ten(b),
    decreases a,
{
    if a > 0 {
        lemma_ten_adds((a - 1) as nat, b);
        assert(10 * (ten((a - 1) as nat) * ten(b)) == (10 * ten((a - 1) as nat)) * ten(b))
            by (nonlinear_arith);
        assert((a + b - 1) as nat == (a - 1) as nat + b);
    } else {
        assert(ten(0) * ten(b) == ten(b)) by (nonlinear_arith)
            requires
                ten(0) == 1,
        ;
    }
}

proof fn lemma_log2(n: nat)
    requires
        n >= 1,
    ensures
        two(log2(n)) <= n < 2 * two(log2(n)),
    decreases n,
{
    if n >= 2 {
        lemma_log2(n / 2);
    }
}

proof fn lemma_two_monotone(a: nat, b: nat)
    requires
        a <= b,
    ensures
        two(a) <= two(b),
    decreases b,
{
    if a < b {
        lemma_two_monotone(a, (b - 1) as nat);
    }
}

proof fn lemma_two_values()
    ensures
        two(32) == 0x1_0000_0000,
        two(53) == 0x20_0000_0000_0000,
{
    assert(two(0) == 1);
    lemma_two_byte(0);
    lemma_two_byte(8);
    lemma_two_byte(16);
    lemma_two_byte(24);
    lemma_two_byte(32);
    lemma_two_byte(40);
    assert(two(53) == 32 * two(48)) by {
        reveal_with_fuel(two, 6);
    }
}

proof fn lemma_two_byte(e: nat)
    ensures
        two(e + 8) == 256 * two(e),
{
    reveal_with_fuel(two, 9);
}

/// Below `2^32` the exponent is at most 31.
proof fn lemma_log2_bound(n: nat)
    requires
        1 <= n < 0x1_0000_0000,
    ensures
        log2(n) <= 31,
{
    lemma_log2(n);
    if log2(n) > 31 {
        lemma_two_monotone(32, log2(n));
        lemma_two_values();
    }
}

/// The only candidates are the whole part and the one after it.
proof fn lemma_candidates(a: nat, b: nat, whole: nat, part: nat, n: nat)
    requires
        a == whole * b + part,
        part < b,
        1 <= n < 0x1_0000_0000,
    ensures
        n == whole ==> (nearest_is(a, b, n) <==> part * two((53 - log2(n)) as nat) <= b),
        n == whole + 1 ==> (nearest_is(a, b, n) <==> (b - part) * two(
            if two(log2(n)) == n {
                (54 - log2(n)) as nat
            } else {
                (53 - log2(n)) as nat
            },
        ) <= b),
        n < whole || n > whole + 1 ==> !nearest_is(a, b, n),
{
    lemma_log2_bound(n);
    let e = log2(n);
    let above = (53 - e) as nat;
    let below = if two(e) == n {
        (54 - e) as nat
    } else {
        (53 - e) as nat
    };
    lemma_two_monotone(1, above);
    lemma_two_monotone(1, below);
    assert(two(1) == 2) by {
        reveal_with_fuel(two, 2);
    }
    let up = two(above) as int;
    let down = two(below) as int;
    let d = (whole - n) as int;
    assert(whole * b - n * b == d * b) by (nonlinear_arith)
        requires
            d == whole - n,
    ;
    if n == whole {
        assert(d * b == 0) by (nonlinear_arith)
            requires
                d == 0,
        ;
        assert((-(part as int)) * down <= 0) by (nonlinear_arith)
            requires
                part >= 0,
                down >= 2,
        ;
    } else if n == whole + 1 {
        assert(d * b == -b) by (nonlinear_arith)
            requires
                d == -1,
        ;
        assert((part - b) * up <= 0) by (nonlinear_arith)
            requires
                part < b,
                up >= 2,
        ;
    } else if n < whole {
        assert(d * b >= b) by (nonlinear_arith)
            requires
                d >= 1,
                b >= 0,
        ;
        assert((d * b + part) * up > b) by (nonlinear_arith)
            requires
                d * b >= b,
                part >= 0,
                b > 0,
                up >= 2,
        ;
    } else {
        assert(-(d * b) >= 2 * b) by (nonlinear_arith)
            requires
                d <= -2,
                b >= 0,
        ;
        assert((-(d * b) - part) * down > b) by (nonlinear_arith)
            requires
                -(d * b) >= 2 * b,
                part < b,
                b > 0,
                down >= 2,
        ;
    }
}

/// The value of a sequence of digit values, the most significant first.
spec fn val(ds: Seq<u8>) -> nat
    decreases ds.len(),
{
    if ds.len() == 0 {
        0
    } else {
        val(ds.drop_last()) * 10 + ds.last() as nat
    }
}

spec fn are_digits(ds: Seq<u8>) -> bool {
    forall|i: int| 0 <= i < ds.len() ==> #[trigger] ds[i] < 10
}

proof fn lemma_val_concat(a: Seq<u8>, b: Seq<u8>)
    ensures
        val(a + b) == val(a) * ten(b.len()) + val(b),
    decreases b.len(),
{
    if b.len() == 0 {
        assert(a + b == a);
        assert(val(a) * ten(0) == val(a)) by (nonlinear_arith)
            requires
                ten(0) == 1,
        ;
    } else {
        lemma_val_concat(a, b.drop_last());
        assert((a + b).drop_last() == a + b.drop_last());
        let t = ten((b.len() - 1) as nat);
        assert((val(a) * t + val(b.drop_last())) * 10 == val(a) * (10 * t) + val(b.drop_last()) * 10)
            by (nonlinear_arith);
    }
}

proof fn lemma_val_bound(ds: Seq<u8>)
    requires
        are_digits(ds),
    ensures
        val(ds) < ten(ds.len()),
    decreases ds.len(),
{
    if ds.len() > 0 {
        lemma_val_bound(ds.drop_last());
    }
}

proof fn lemma_val_zero(ds: Seq<u8>)
    requires
        forall|i: int| 0 <= i < ds.len() ==> #[trigger] ds[i] == 0,
    ensures
        val(ds) == 0,
    decreases ds.len(),
{
    if ds.len() > 0 {
        lemma_val_zero(ds.drop_last());
    }
}

proof fn lemma_zero_val(ds: Seq<u8>, i: int)
    requires
        val(ds) == 0,
        0 <= i < ds.len(),
    ensures
        ds[i] == 0,
    decreases ds.len(),
{
    if i < ds.len() - 1 {
        lemma_zero_val(ds.drop_last(), i);
    }
}

/// A sequence that starts with a digit that is not zero.
proof fn lemma_val_least(ds: Seq<u8>)
    requires
        ds.len() > 0,
        ds[0] >= 1,
    ensures
        val(ds) >= ten((ds.len() - 1) as nat),
    decreases ds.len(),
{
    if ds.len() > 1 {
        lemma_val_least(ds.drop_last());
    } else {
        assert(ds.drop_last() == Seq::<u8>::empty());
    }
}

proof fn lemma_digits_val(s: Seq<char>, ds: Seq<u8>)
    requires
        s.len() == ds.len(),
        all_digits(s),
        forall|i: int| 0 <= i < ds.len() ==> #[trigger] ds[i] == s[i] as u32 - 48,
    ensures
        digits_value(s) == val(ds),
        are_digits(ds),
    decreases s.len(),
{
    assert forall|i: int| 0 <= i < ds.len() implies #[trigger] ds[i] < 10 by {
        assert(is_digit(s[i]));
    }
    if s.len() > 0 {
        lemma_digits_val(s.drop_last(), ds.drop_last());
    }
}

/// Doubles the fraction `0.ds`; whether that reaches one.
fn double(ds: &mut Vec<u8>) -> (carry: bool)
    requires
        are_digits(old(ds)@),
    ensures
        are_digits(final(ds)@),
        final(ds)@.len() == old(ds)@.len(),
        2 * val(old(ds)@) == (if carry {
            ten(old(ds)@.len())
        } else {
            0
        }) + val(final(ds)@),
{
    let n: usize = ds.len();
    let ghost start = ds@;
    let mut i: usize = n;
    let mut c: u8 = 0;
    assert(start.subrange(n as int, n as int) == Seq::<u8>::empty());
    assert(ds@.subrange(n as int, n as int) == Seq::<u8>::empty());
    while i > 0
        invariant
            i <= n == ds@.len() == start.len(),
            c <= 1,
            are_digits(start),
            are_digits(ds@),
            ds@.subrange(0, i as int) == start.subrange(0, i as int),
            2 * val(start.subrange(i as int, n as int)) == c * ten((n - i) as nat) + val(
                ds@.subrange(i as int, n as int),
            ),
        decreases i,
    {
        let ghost before = ds@;
        let d: u8 = ds[i - 1];
        let e: u8 = 2 * d + c;
        ds.set(i - 1, e % 10);
        proof {
            assert(start[i - 1] == start.subrange(0, i as int)[i - 1]);
            assert(before[i - 1] == before.subrange(0, i as int)[i - 1]);
            assert(d == start[i - 1]);
            let t = ten((n - i) as nat);
            let s_tail = start.subrange(i as int, n as int);
            let d_tail = before.subrange(i as int, n as int);
            assert(start.subrange(i - 1, n as int) == seq![d] + s_tail);
            assert(ds@.subrange(i - 1, n as int) == seq![(e % 10) as u8] + d_tail);
            lemma_val_concat(seq![d], s_tail);
            lemma_val_concat(seq![(e % 10) as u8], d_tail);
            assert(seq![d].drop_last() == Seq::<u8>::empty());
            assert(seq![(e % 10) as u8].drop_last() == Seq::<u8>::empty());
            reveal_with_fuel(val, 2);
            assert(val(seq![d]) == d);
            assert(val(seq![(e % 10) as u8]) == e % 10);
            let q = (e / 10) as nat;
            let r = (e % 10) as nat;
            assert(e == 10 * q + r);
            assert(ten((n - i + 1) as nat) == 10 * t);
            assert(2 * (d * t + val(s_tail)) == q * (10 * t) + (r * t + val(d_tail)))
                by (nonlinear_arith)
                requires
                    2 * val(s_tail) == c * t + val(d_tail),
                    2 * d + c == 10 * q + r,
            ;
            assert(ds@.subrange(0, i - 1) == start.subrange(0, i - 1)) by {
                assert forall|j: int| 0 <= j < i - 1 implies ds@[j] == start[j] by {
                    assert(before.subrange(0, i as int)[j] == start.subrange(0, i as int)[j]);
                }
            }
        }
        c = e / 10;
        i = i - 1;
    }
    assert(start.subrange(0, n as int) == start);
    assert(ds@.subrange(0, n as int) == ds@);
    assert(c * ten(n as nat) == if c == 1 {
        ten(n as nat)
    } else {
        0
    }) by (nonlinear_arith)
        requires
            c <= 1,
    ;
    c == 1
}

/// The fraction `0.ds` times `2^m`: its whole part, and whether nothing is left behind it.
fn scaled(ds: &Vec<u8>, m: u32) -> (r: (u64, bool))
    requires
        are_digits(ds@),
        m <= 54,
    ensures
        0 <= val(ds@) * two(m as nat) - r.0 * ten(ds@.len()) < ten(ds@.len()),
        r.1 == (val(ds@) * two(m as nat) == r.0 * ten(ds@.len())),
        r.0 < two(m as nat),
{
    let mut part: Vec<u8> = ds.clone();
    assert(part@ == ds@);
    let ghost t = ten(ds@.len());
    let mut q: u64 = 0;
    let mut k: u32 = 0;
    proof {
        lemma_val_bound(ds@);
        assert(val(ds@) * two(0) == val(ds@)) by (nonlinear_arith)
            requires
                two(0) == 1,
        ;
    }
    while k < m
        invariant
            k <= m <= 54,
            are_digits(part@),
            part@.len() == ds@.len(),
            t == ten(ds@.len()),
            q < two(k as nat),
            val(ds@) * two(k as nat) == q * t + val(part@),
        decreases m - k,
    {
        let ghost before = val(part@);
        let ghost q0 = q as nat;
        proof {
            lemma_two_monotone(k as nat, 53);
            lemma_two_values();
        }
        let carry: bool = double(&mut part);
        if carry {
            q = 2 * q + 1;
        } else {
            q = 2 * q;
        }
        proof {
            let c: nat = if carry {
                1
            } else {
                0
            };
            let p = two(k as nat);
            assert(val(ds@) * (2 * p) == (2 * q0 + c) * t + val(part@)) by (nonlinear_arith)
                requires
                    val(ds@) * p == q0 * t + before,
                    2 * before == c * t + val(part@),
            ;
        }
        k = k + 1;
    }
    let mut zero: bool = true;
    let mut i: usize = 0;
    while i < part.len()
        invariant
            i <= part@.len(),
            zero == (forall|j: int| 0 <= j < i ==> #[trigger] part@[j] == 0),
        decreases part.len() - i,
    {
        if part[i] != 0 {
            zero = false;
        }
        i = i + 1;
    }
    proof {
        lemma_val_bound(part@);
        if zero {
            lemma_val_zero(part@);
        } else {
            if val(part@) == 0 {
                assert forall|j: int| 0 <= j < part@.len() implies #[trigger] part@[j] == 0 by {
                    lemma_zero_val(part@, j);
                }
            }
        }
    }
    (q, zero)
}

/// The largest power of two that is at most `n`, and its exponent.
fn leading_bit(n: u64) -> (r: (u32, u64))
    requires
        1 <= n < 0x1_0000_0000,
    ensures
        r.0 == log2(n as nat),
        r.1 == two(log2(n as nat)),
        r.0 <= 31,
{
    let mut e: u32 = 0;
    let mut p: u64 = 1;
    proof {
        lemma_log2(n as nat);
        lemma_log2_bound(n as nat);
    }
    while 2 * p <= n
        invariant
            p == two(e as nat),
            p <= n < 0x1_0000_0000,
            1 <= p,
            e <= 32,
        decreases n - p,
    {
        proof {
            if e >= 32 {
                lemma_two_monotone(32, e as nat);
                lemma_two_values();
            }
        }
        p = 2 * p;
        e = e + 1;
    }
    proof {
        lemma_log2_unique(n as nat, e as nat);
    }
    (e, p)
}

proof fn lemma_log2_unique(n: nat, e: nat)
    requires
        two(e) <= n < 2 * two(e),
    ensures
        log2(n) == e,
{
    lemma_two_positive(e);
    lemma_log2(n);
    let f = log2(n);
    if f < e {
        lemma_two_monotone(f + 1, e);
    } else if e < f {
        lemma_two_monotone(e + 1, f);
    }
}

/// The whole number from 1 to `max` that is the double nearest to `whole + 0.ds`.
fn nearest_whole(whole: u64, ds: &Vec<u8>, max: u64) -> (r: Option<u64>)
    requires
        are_digits(ds@),
        max < 0xffff_ffff,
    ensures
        match r {
            Some(n) => 1 <= n <= max && nearest_is(
                whole as nat * ten(ds@.len()) + val(ds@),
                ten(ds@.len()),
                n as nat,
            ),
            None => forall|n: nat|
                1 <= n <= max ==> !#[trigger] nearest_is(
                    whole as nat * ten(ds@.len()) + val(ds@),
                    ten(ds@.len()),
                    n,
                ),
        },
{
    let ghost b = ten(ds@.len());
    let ghost part = val(ds@);
    let ghost a = whole as nat * b + part;
    proof {
        lemma_val_bound(ds@);
        assert forall|n: nat|
            1 <= n <= max && (n < whole || n > whole + 1) implies !#[trigger] nearest_is(a, b, n) by {
            lemma_candidates(a, b, whole as nat, part, n);
        }
    }
    if whole >= 1 && whole <= max {
        let (e, _p) = leading_bit(whole);
        let (q, zero) = scaled(ds, 53 - e);
        let near: bool = q == 0 || (q == 1 && zero);
        proof {
            lemma_candidates(a, b, whole as nat, part, whole as nat);
            let rest = part * two((53 - e) as nat) - q * b;
            assert(near <==> q * b + rest <= b) by (nonlinear_arith)
                requires
                    near == (q == 0 || (q == 1 && zero)),
                    zero == (rest == 0),
                    0 <= rest < b,
                    q >= 0,
            ;
        }
        if near {
            return Some(whole);
        }
    } else {
        proof {
            if whole >= 1 {
                assert(!(1 <= whole <= max));
            }
        }
    }
    if whole < max {
        let n: u64 = whole + 1;
        let (e, p) = leading_bit(n);
        let m: u32 = if p == n {
            54 - e
        } else {
            53 - e
        };
        let (q, _zero) = scaled(ds, m);
        let bound: u64 = power_of_two(m);
        let near: bool = q == bound - 1;
        proof {
            lemma_candidates(a, b, whole as nat, part, n as nat);
            let w = two(m as nat);
            let rest = part * w - q * b;
            assert((b - part) * w == b * w - (q * b + rest)) by (nonlinear_arith)
                requires
                    part * w == q * b + rest,
            ;
            assert(near <==> b * w - (q * b + rest) <= b) by (nonlinear_arith)
                requires
                    near == (q == w - 1),
                    q < w,
                    0 <= rest < b,
                    b >= 1,
            ;
        }
        if near {
            return Some(n);
        }
    }
    None
}

/// `2^m`.
fn power_of_two(m: u32) -> (r: u64)
    requires
        m <= 54,
    ensures
        r == two(m as nat),
        r >= 1,
{
    let mut p: u64 = 1;
    let mut k: u32 = 0;
    while k < m
        invariant
            k <= m <= 54,
            p == two(k as nat),
            p >= 1,
        decreases m - k,
    {
        proof {
            lemma_two_monotone(k as nat, 53);
            lemma_two_values();
        }
        p = 2 * p;
        k = k + 1;
    }
    p
}

/// Exponents of this size or more decide without their exact value.
const EXPONENT_CAP: i128 = 1_000_000_000_000_000_000_000_000_000_000;

/// `x` is `v`, or both lie beyond the cap on the same side.
spec fn stands_for(x: i128, v: int) -> bool {
    ||| x == v
    ||| x >= EXPONENT_CAP && v >= EXPONENT_CAP
    ||| x <= -EXPONENT_CAP && v <= -EXPONENT_CAP
}

/// Where the exponent letter stands at or after `from`, or the end.
fn find_exponent(chars: &Vec<char>, from: usize) -> (k: usize)
    requires
        from <= chars@.len(),
    ensures
        from <= k <= chars@.len(),
        k - from == exponent_at(chars@.subrange(from as int, chars@.len() as int)),
{
    let n: usize = chars.len();
    let mut k: usize = from;
    while k < n && chars[k] != 'e' && chars[k] != 'E'
        invariant
            from <= k <= n == chars@.len(),
            exponent_at(chars@.subrange(from as int, n as int)) == k - from + exponent_at(
                chars@.subrange(k as int, n as int),
            ),
        decreases n - k,
    {
        assert(chars@.subrange(k as int, n as int).drop_first() == chars@.subrange(k + 1, n as int));
        k = k + 1;
    }
    k
}

/// Where the point stands between `from` and `to`, or `to`.
fn find_point(chars: &Vec<char>, from: usize, to: usize) -> (p: usize)
    requires
        from <= to <= chars@.len(),
    ensures
        from <= p <= to,
        text::before(chars@.subrange(from as int, to as int), '.') == chars@.subrange(
            from as int,
            p as int,
        ),
{
    let mut p: usize = from;
    let ghost s = chars@.subrange(from as int, to as int);
    proof {
        assert(s.subrange(0, s.len() as int) == s);
        assert(Seq::<char>::empty() + text::before(s, '.') == text::before(s, '.'));
        assert(s.subrange(0, 0) == Seq::<char>::empty());
    }
    while p < to && chars[p] != '.'
        invariant
            from <= p <= to <= chars@.len(),
            s == chars@.subrange(from as int, to as int),
            text::before(s, '.') == s.subrange(0, p - from) + text::before(
                s.subrange(p - from, s.len() as int),
                '.',
            ),
        decreases to - p,
    {
        proof {
            let tail = s.subrange(p - from, s.len() as int);
            assert(tail.drop_first() == s.subrange(p - from + 1, s.len() as int));
            assert(s.subrange(0, p - from) + (seq![tail[0]] + text::before(tail.drop_first(), '.'))
                == s.subrange(0, p - from + 1) + text::before(tail.drop_first(), '.'));
        }
        p = p + 1;
    }
    assert(text::before(s.subrange(p - from, s.len() as int), '.') == Seq::<char>::empty());
    assert(s.subrange(0, p - from) == chars@.subrange(from as int, p as int));
    p
}

/// Appends the digits between `from` and `to`; whether they all were digits.
fn read_digits(chars: &Vec<char>, from: usize, to: usize, out: &mut Vec<u8>) -> (ok: bool)
    requires
        from <= to <= chars@.len(),
    ensures
        ok == all_digits(chars@.subrange(from as int, to as int)),
        ok ==> final(out)@.len() == old(out)@.len() + (to - from),
        ok ==> final(out)@.subrange(0, old(out)@.len() as int) == old(out)@,
        ok ==> forall|i: int|
            0 <= i < to - from ==> #[trigger] final(out)@[old(out)@.len() + i] == chars@[from + i] as u32
                - 48,
{
    let mut i: usize = from;
    let ghost start = out@;
    while i < to
        invariant
            from <= i <= to <= chars@.len(),
            out@.len() == start.len() + (i - from),
            out@.subrange(0, start.len() as int) == start,
            forall|j: int| from <= j < i ==> is_digit(#[trigger] chars@[j]),
            forall|j: int|
                0 <= j < i - from ==> #[trigger] out@[start.len() + j] == chars@[from + j] as u32 - 48,
        decreases to - i,
    {
        let c: char = chars[i];
        if c < '0' || c > '9' {
            assert(!is_digit(chars@.subrange(from as int, to as int)[i - from]));
            return false;
        }
        let d: u32 = c as u32 - 48;
        let ghost before = out@;
        out.push(d as u8);
        assert(out@.subrange(0, start.len() as int) == before.subrange(0, start.len() as int));
        i = i + 1;
    }
    assert(all_digits(chars@.subrange(from as int, to as int)));
    true
}

/// The exponent written from `from` to the end.
fn read_exponent(chars: &Vec<char>, from: usize) -> (r: Option<i128>)
    requires
        from <= chars@.len(),
    ensures
        match (r, exponent_value(chars@.subrange(from as int, chars@.len() as int))) {
            (Some(x), Some(v)) => stands_for(x, v) && -100 * EXPONENT_CAP <= x <= 100 * EXPONENT_CAP,
            (None, None) => true,
            _ => false,
        },
{
    let n: usize = chars.len();
    let ghost s = chars@.subrange(from as int, n as int);
    let signed: bool = from < n && (chars[from] == '+' || chars[from] == '-');
    let minus: bool = from < n && chars[from] == '-';
    let first: usize = if signed {
        from + 1
    } else {
        from
    };
    let ghost digits = chars@.subrange(first as int, n as int);
    assert(unsigned(s) == digits) by {
        if signed {
            assert(s.drop_first() == digits);
        }
    }
    if first == n {
        return None;
    }
    let mut x: i128 = 0;
    let mut i: usize = first;
    while i < n
        invariant
            first <= i <= n == chars@.len(),
            digits == chars@.subrange(first as int, n as int),
            unsigned(chars@.subrange(from as int, n as int)) == digits,
            0 <= x <= 100 * EXPONENT_CAP,
            x == digits_value(digits.subrange(0, i - first)) || (x >= EXPONENT_CAP && digits_value(
                digits.subrange(0, i - first),
            ) >= EXPONENT_CAP),
            forall|j: int| 0 <= j < i - first ==> is_digit(#[trigger] digits[j]),
        decreases n - i,
    {
        let c: char = chars[i];
        if c < '0' || c > '9' {
            assert(!is_digit(digits[i - first]));
            return None;
        }
        let d: u32 = c as u32 - 48;
        assert(digits.subrange(0, i - first + 1).drop_last() == digits.subrange(0, i - first));
        if x < EXPONENT_CAP {
            x = x * 10 + d as i128;
        }
        i = i + 1;
    }
    assert(digits.subrange(0, n - first) == digits);
    assert(all_digits(digits));
    if minus {
        Some(-x)
    } else {
        Some(x)
    }
}

/// What `read` found of a number in text.
struct Reading {
    negative: bool,
    digits: Vec<u8>,
    fraction: usize,
    exponent: i128,
}

spec fn reading_of(r: Reading, x: Number) -> bool {
    &&& r.negative == x.negative
    &&& are_digits(r.digits@)
    &&& val(r.digits@) == digits_value(x.digits)
    &&& r.digits@.len() == x.digits.len()
    &&& r.fraction <= r.digits@.len()
    &&& stands_for(r.exponent, x.scale + r.fraction)
    &&& -100 * EXPONENT_CAP <= r.exponent <= 100 * EXPONENT_CAP
}

/// The digits of the mantissa between `first` and `k`, and how many of them stand behind its
/// point.
fn read_mantissa(chars: &Vec<char>, first: usize, k: usize) -> (r: Option<(Vec<u8>, usize)>)
    requires
        first <= k <= chars@.len(),
    ensures
        ({
            let mantissa = chars@.subrange(first as int, k as int);
            let digits = text::before(mantissa, '.') + fraction(mantissa);
            match r {
                Some((ds, behind)) => {
                    &&& all_digits(digits)
                    &&& digits.len() > 0
                    &&& are_digits(ds@)
                    &&& val(ds@) == digits_value(digits)
                    &&& ds@.len() == digits.len()
                    &&& behind == fraction(mantissa).len()
                    &&& behind <= ds@.len()
                },
                None => !all_digits(digits) || digits.len() == 0,
            }
        }),
{
    let ghost mantissa = chars@.subrange(first as int, k as int);
    let p: usize = find_point(chars, first, k);
    let from: usize = if p < k {
        p + 1
    } else {
        k
    };
    let ghost whole = chars@.subrange(first as int, p as int);
    let ghost frac = chars@.subrange(from as int, k as int);
    assert(fraction(mantissa) == frac) by {
        if p < k {
            assert(mantissa.subrange(whole.len() as int + 1, mantissa.len() as int) == frac);
        } else {
            assert(frac == Seq::<char>::empty());
        }
    }
    let ghost digits = whole + frac;
    let mut ds: Vec<u8> = Vec::new();
    if !read_digits(chars, first, p, &mut ds) {
        proof {
            let i = choose|i: int| 0 <= i < whole.len() && !is_digit(#[trigger] whole[i]);
            assert(digits[i] == whole[i]);
        }
        return None;
    }
    let ghost ds1 = ds@;
    if !read_digits(chars, from, k, &mut ds) {
        proof {
            let i = choose|i: int| 0 <= i < frac.len() && !is_digit(#[trigger] frac[i]);
            assert(digits[whole.len() + i] == frac[i]);
        }
        return None;
    }
    if ds.len() == 0 {
        return None;
    }
    proof {
        assert(all_digits(digits));
        assert forall|i: int| 0 <= i < ds@.len() implies #[trigger] ds@[i] == digits[i] as u32 - 48 by {
            if i < whole.len() {
                assert(ds@.subrange(0, ds1.len() as int)[i] == ds1[i]);
                assert(ds1[0 + i] == chars@[first + i] as u32 - 48);
            } else {
                let j = i - whole.len();
                assert(ds@[ds1.len() + j] == chars@[from + j] as u32 - 48);
            }
        }
        lemma_digits_val(digits, ds@);
    }
    Some((ds, k - from))
}

/// Reads a number.
fn read(s: &str) -> (r: Option<Reading>)
    ensures
        match (r, number_of(s@)) {
            (Some(x), Some(v)) => reading_of(x, v),
            (None, None) => true,
            _ => false,
        },
{
    let chars = chars_of(s);
    let n: usize = chars.len();
    let signed: bool = n > 0 && (chars[0] == '+' || chars[0] == '-');
    let negative: bool = n > 0 && chars[0] == '-';
    let first: usize = if signed {
        1
    } else {
        0
    };
    let ghost u = chars@.subrange(first as int, n as int);
    assert(unsigned(s@) == u) by {
        if signed {
            assert(s@.drop_first() == u);
        } else {
            assert(s@ == u);
        }
    }
    let k: usize = find_exponent(&chars, first);
    assert(u.subrange(0, k - first) == chars@.subrange(first as int, k as int));
    assert(k < n ==> u.subrange(k - first + 1, u.len() as int) == chars@.subrange(k + 1, n as int));
    match read_mantissa(&chars, first, k) {
        None => None,
        Some((digits, fraction)) => {
            let exponent: i128 = if k < n {
                match read_exponent(&chars, k + 1) {
                    Some(x) => x,
                    None => {
                        return None;
                    },
                }
            } else {
                0
            };
            Some(Reading { negative, digits, fraction, exponent })
        },
    }
}

/// The number of zeros that `ds` starts with.
fn leading_zeros(ds: &Vec<u8>) -> (z: usize)
    ensures
        z <= ds@.len(),
        forall|j: int| 0 <= j < z ==> #[trigger] ds@[j] == 0,
        z < ds@.len() ==> ds@[z as int] != 0,
{
    let mut z: usize = 0;
    while z < ds.len() && ds[z] == 0
        invariant
            z <= ds@.len(),
            forall|j: int| 0 <= j < z ==> #[trigger] ds@[j] == 0,
        decreases ds.len() - z,
    {
        z = z + 1;
    }
    z
}

/// The value of the digits before `cut`, the first `z` of which are zero, times `10^zeros`.
fn whole_part(ds: &Vec<u8>, z: usize, cut: usize, zeros: usize) -> (r: u64)
    requires
        are_digits(ds@),
        z <= cut <= ds@.len(),
        cut - z + zeros <= 11,
        forall|j: int| 0 <= j < z ==> #[trigger] ds@[j] == 0,
    ensures
        r == val(ds@.subrange(0, cut as int)) * ten(zeros as nat),
{
    let mut whole: u64 = 0;
    let mut i: usize = z;
    proof {
        lemma_ten_values();
        lemma_val_zero(ds@.subrange(0, z as int));
    }
    while i < cut
        invariant
            z <= i <= cut <= ds@.len(),
            are_digits(ds@),
            cut - z <= 11,
            whole == val(ds@.subrange(0, i as int)),
            whole < ten((i - z) as nat),
            ten(11) == 100_000_000_000,
        decreases cut - i,
    {
        proof {
            assert(ds@.subrange(0, i + 1).drop_last() == ds@.subrange(0, i as int));
            lemma_ten_monotone((i - z + 1) as nat, 11);
        }
        whole = whole * 10 + ds[i] as u64;
        i = i + 1;
    }
    let ghost base = whole as nat;
    let mut k: usize = 0;
    assert(base * ten(0) == base) by (nonlinear_arith)
        requires
            ten(0) == 1,
    ;
    while k < zeros
        invariant
            k <= zeros,
            whole == base * ten(k as nat),
            base < ten((cut - z) as nat),
            cut - z + zeros <= 11,
            z <= cut,
            ten(11) == 100_000_000_000,
        decreases zeros - k,
    {
        proof {
            let t = ten(k as nat);
            let most = ten((cut - z) as nat);
            lemma_ten_adds((cut - z) as nat, (k + 1) as nat);
            lemma_ten_monotone((cut - z + k + 1) as nat, 11);
            lemma_ten_positive(k as nat);
            assert(base * (10 * t) < most * (10 * t)) by (nonlinear_arith)
                requires
                    base < most,
                    t >= 1,
            ;
            assert((base * t) * 10 == base * (10 * t)) by (nonlinear_arith);
        }
        whole = whole * 10;
        k = k + 1;
    }
    whole
}

/// The digits from `cut` on.
fn digits_from(ds: &Vec<u8>, cut: usize) -> (r: Vec<u8>)
    requires
        cut <= ds@.len(),
    ensures
        r@ == ds@.subrange(cut as int, ds@.len() as int),
{
    let mut part: Vec<u8> = Vec::new();
    let mut j: usize = cut;
    while j < ds.len()
        invariant
            cut <= j <= ds@.len(),
            part@ == ds@.subrange(cut as int, j as int),
        decreases ds.len() - j,
    {
        part.push(ds[j]);
        j = j + 1;
        assert(ds@.subrange(cut as int, j as int) == ds@.subrange(cut as int, j - 1).push(ds@[j - 1]));
    }
    part
}

/// How the digits of a number bound it: at least `10^(length - 1)` and below `10^length`, where
/// `length` counts them without the zeros in front.
proof fn lemma_length(ds: Seq<u8>, z: int)
    requires
        are_digits(ds),
        0 <= z <= ds.len(),
        forall|j: int| 0 <= j < z ==> #[trigger] ds[j] == 0,
        z < ds.len() ==> ds[z] != 0,
    ensures
        val(ds) < ten((ds.len() - z) as nat),
        z < ds.len() ==> val(ds) >= ten((ds.len() - z - 1) as nat),
        z == ds.len() ==> val(ds) == 0,
{
    let head = ds.subrange(0, z);
    let tail = ds.subrange(z, ds.len() as int);
    assert(ds == head + tail);
    lemma_val_concat(head, tail);
    lemma_val_zero(head);
    assert(0 * ten(tail.len()) == 0) by (nonlinear_arith);
    lemma_val_bound(tail);
    if z < ds.len() {
        lemma_val_least(tail);
    }
}

/// A number cut at its point: the digits before the point, the zeros that follow them, and the
/// digits behind.
proof fn lemma_cut(x: Number, ds: Seq<u8>, cut: int, zeros: nat)
    requires
        are_digits(ds),
        val(ds) == digits_value(x.digits),
        0 <= cut <= ds.len(),
        x.scale >= 0 ==> cut == ds.len() && zeros == x.scale,
        x.scale < 0 ==> cut == ds.len() + x.scale && zeros == 0,
    ensures
        denominator(x) == ten((ds.len() - cut) as nat),
        numerator(x) == (val(ds.subrange(0, cut)) * ten(zeros)) * denominator(x) + val(
            ds.subrange(cut, ds.len() as int),
        ),
{
    let front = ds.subrange(0, cut);
    let back = ds.subrange(cut, ds.len() as int);
    assert(ds == front + back);
    lemma_val_concat(front, back);
    if x.scale >= 0 {
        assert(back == Seq::<u8>::empty());
        assert(front == ds);
        let t = ten(zeros);
        assert((val(ds) * t) * 1 + 0 == val(ds) * t) by (nonlinear_arith);
    } else {
        assert(val(front) * ten(0) == val(front)) by (nonlinear_arith)
            requires
                ten(0) == 1,
        ;
    }
}

/// The whole number from 1 to `max` that a text reads as.
pub fn coerce(s: &str, max: u64) -> (r: Option<u64>)
    requires
        max < 0xffff_ffff,
    ensures
        coerced(s@, max as nat, r),
{
    let x = match read(s) {
        None => {
            return None;
        },
        Some(x) => x,
    };
    if x.negative {
        return None;
    }
    let n: usize = x.digits.len();
    let z: usize = leading_zeros(&x.digits);
    let scale: i128 = x.exponent - x.fraction as i128;
    let places: i128 = (n - z) as i128 + scale;
    let ghost v = number_of(s@)->0;
    proof {
        lemma_length(x.digits@, z as int);
    }
    if z == n {
        proof {
            lemma_no_zero(v, max as nat);
        }
        return None;
    }
    if places > 11 {
        proof {
            lemma_no_large(v, (n - z) as nat, max as nat);
        }
        return None;
    }
    if places < 0 {
        proof {
            lemma_no_small(v, (n - z) as nat, max as nat);
        }
        return None;
    }
    assert(scale == v.scale);
    let cut: usize = if scale < 0 {
        n - (-scale) as usize
    } else {
        n
    };
    let zeros: usize = if scale < 0 {
        0
    } else {
        scale as usize
    };
    let whole: u64 = whole_part(&x.digits, z, cut, zeros);
    let part = digits_from(&x.digits, cut);
    proof {
        lemma_cut(v, x.digits@, cut as int, zeros as nat);
        assert(are_digits(part@));
    }
    nearest_whole(whole, &part, max)
}

proof fn lemma_ten_values()
    ensures
        ten(11) == 100_000_000_000,
        ten(1) == 10,
{
    reveal_with_fuel(ten, 12);
}

proof fn lemma_ten_monotone(a: nat, b: nat)
    requires
        a <= b,
    ensures
        ten(a) <= ten(b),
    decreases b,
{
    if a < b {
        lemma_ten_monotone(a, (b - 1) as nat);
    }
}

/// Zero reads as no whole number from 1 on.
proof fn lemma_no_zero(x: Number, max: nat)
    requires
        digits_value(x.digits) == 0,
        max < 0xffff_ffff,
    ensures
        forall|n: nat|
            1 <= n <= max ==> !#[trigger] nearest_is(numerator(x), denominator(x), n),
{
    lemma_ten_positive((-x.scale) as nat);
    let b = if x.scale >= 0 {
        1
    } else {
        ten((-x.scale) as nat)
    };
    assert(0 * ten(x.scale as nat) == 0) by (nonlinear_arith);
    assert forall|n: nat| 1 <= n <= max implies !#[trigger] nearest_is(0, b, n) by {
        assert(0 == 0 * b + 0) by (nonlinear_arith);
        lemma_candidates(0, b, 0, 0, n);
        lemma_log2_bound(n);
        let below = if two(log2(n)) == n {
            (54 - log2(n)) as nat
        } else {
            (53 - log2(n)) as nat
        };
        lemma_two_monotone(1, below);
        assert(two(1) == 2) by {
            reveal_with_fuel(two, 2);
        }
        assert((b - 0) * two(below) > b) by (nonlinear_arith)
            requires
                b >= 1,
                two(below) >= 2,
        ;
    }
}

/// A number of more than eleven places reads as none.
proof fn lemma_no_large(x: Number, length: nat, max: nat)
    requires
        length >= 1,
        digits_value(x.digits) >= ten((length - 1) as nat),
        length + x.scale > 11,
        max < 0xffff_ffff,
    ensures
        forall|n: nat|
            1 <= n <= max ==> !#[trigger] nearest_is(numerator(x), denominator(x), n),
{
    let d = digits_value(x.digits);
    let b = if x.scale >= 0 {
        1
    } else {
        ten((-x.scale) as nat)
    };
    let a = if x.scale >= 0 {
        d * ten(x.scale as nat)
    } else {
        d
    };
    lemma_ten_positive((-x.scale) as nat);
    lemma_ten_values();
    let places = (length - 1 + x.scale) as nat;
    lemma_ten_monotone(11, places);
    assert(a >= ten(places) * b) by {
        if x.scale >= 0 {
            lemma_ten_adds((length - 1) as nat, x.scale as nat);
            assert(d * ten(x.scale as nat) >= ten((length - 1) as nat) * ten(x.scale as nat))
                by (nonlinear_arith)
                requires
                    d >= ten((length - 1) as nat),
            ;
        } else {
            lemma_ten_adds(places, (-x.scale) as nat);
        }
    }
    let whole = a / b;
    let part = a % b;
    assert(a == whole * b + part && part < b) by (nonlinear_arith)
        requires
            whole == a / b,
            part == a % b,
            b >= 1,
    ;
    assert(whole >= ten(places)) by (nonlinear_arith)
        requires
            a >= ten(places) * b,
            a == whole * b + part,
            part < b,
            b >= 1,
    ;
    assert forall|n: nat| 1 <= n <= max implies !#[trigger] nearest_is(a, b, n) by {
        lemma_candidates(a, b, whole, part, n);
    }
}

/// A number below a tenth reads as none.
proof fn lemma_no_small(x: Number, length: nat, max: nat)
    requires
        digits_value(x.digits) < ten(length),
        length + x.scale < 0,
        max < 0xffff_ffff,
    ensures
        forall|n: nat|
            1 <= n <= max ==> !#[trigger] nearest_is(numerator(x), denominator(x), n),
{
    let d = digits_value(x.digits);
    let b = ten((-x.scale) as nat);
    lemma_ten_monotone(length + 1, (-x.scale) as nat);
    lemma_ten_positive(length);
    assert(10 * d < b);
    assert forall|n: nat| 1 <= n <= max implies !#[trigger] nearest_is(d, b, n) by {
        assert(d == 0 * b + d) by (nonlinear_arith);
        lemma_candidates(d, b, 0, d, n);
        lemma_log2_bound(n);
        let below = if two(log2(n)) == n {
            (54 - log2(n)) as nat
        } else {
            (53 - log2(n)) as nat
        };
        lemma_two_monotone(1, below);
        assert(two(1) == 2) by {
            reveal_with_fuel(two, 2);
        }
        assert((b - d) * two(below) > b) by (nonlinear_arith)
            requires
                b > 10 * d,
                two(below) >= 2,
        ;
    }
}

/// A text reads as at most one whole number.
pub proof fn law_reads_as_one(s: Seq<char>, m: nat, n: nat)
    requires
        1 <= m < 0x1_0000_0000,
        1 <= n < 0x1_0000_0000,
        reads_as(s, m),
        reads_as(s, n),
    ensures
        m == n,
{
    let x = number_of(s)->0;
    let a = numerator(x);
    let b = denominator(x);
    lemma_ten_positive((-x.scale) as nat);
    let whole = a / b;
    let part = a % b;
    assert(a == whole * b + part && part < b) by (nonlinear_arith)
        requires
            whole == a / b,
            part == a % b,
            b >= 1,
    ;
    lemma_candidates(a, b, whole, part, m);
    lemma_candidates(a, b, whole, part, n);
    if m != n {
        let lo = if m < n {
            m
        } else {
            n
        };
        let hi = if m < n {
            n
        } else {
            m
        };
        lemma_log2_bound(lo);
        lemma_log2_bound(hi);
        let above = (53 - log2(lo)) as nat;
        let below = if two(log2(hi)) == hi {
            (54 - log2(hi)) as nat
        } else {
            (53 - log2(hi)) as nat
        };
        lemma_two_monotone(2, above);
        lemma_two_monotone(2, below);
        assert(two(2) == 4) by {
            reveal_with_fuel(two, 3);
        }
        assert(part * two(above) <= b && (b - part) * two(below) <= b ==> false) by (nonlinear_arith)
            requires
                two(above) >= 4,
                two(below) >= 4,
                b >= 1,
                0 <= part < b,
        ;
    }
}

/// A whole number in decimal reads as itself.
pub proof fn law_decimal_reads_as_itself(s: Seq<char>, n: nat)
    requires
        s.len() > 0,
        all_digits(s),
        digits_value(s) == n,
        1 <= n < 0x1_0000_0000,
    ensures
        reads_as(s, n),
{
    assert(is_digit(s[0]));
    assert(unsigned(s) == s);
    lemma_no_exponent(s);
    assert(s.subrange(0, s.len() as int) == s);
    lemma_no_point(s);
    assert(fraction(s) == Seq::<char>::empty());
    assert(s + Seq::<char>::empty() == s);
    let x = number_of(s)->0;
    assert(x.scale == 0);
    assert(n * ten(0) == n) by (nonlinear_arith)
        requires
            ten(0) == 1,
    ;
    assert(n == n * 1 + 0) by (nonlinear_arith);
    lemma_candidates(n, 1, n, 0, n);
    assert(0 * two((53 - log2(n)) as nat) <= 1) by (nonlinear_arith);
}

proof fn lemma_no_exponent(s: Seq<char>)
    requires
        all_digits(s),
    ensures
        exponent_at(s) == s.len(),
    decreases s.len(),
{
    if s.len() > 0 {
        assert(is_digit(s[0]));
        assert(all_digits(s.drop_first())) by {
            assert forall|i: int| 0 <= i < s.len() - 1 implies is_digit(
                #[trigger] s.drop_first()[i],
            ) by {
                assert(is_digit(s[i + 1]));
            }
        }
        lemma_no_exponent(s.drop_first());
    }
}

proof fn lemma_no_point(s: Seq<char>)
    requires
        all_digits(s),
    ensures
        text::before(s, '.') == s,
    decreases s.len(),
{
    if s.len() > 0 {
        assert(is_digit(s[0]));
        assert(all_digits(s.drop_first())) by {
            assert forall|i: int| 0 <= i < s.len() - 1 implies is_digit(
                #[trigger] s.drop_first()[i],
            ) by {
                assert(is_digit(s[i + 1]));
            }
        }
        lemma_no_point(s.drop_first());
        assert(seq![s[0]] + s.drop_first() == s);
    }
}

/// The decimal digits of a number write it, and the first of them is not zero unless the number is.
pub proof fn law_decimal_is_read_back(n: nat)
    ensures
        text::decimal(n).len() > 0,
        all_digits(text::decimal(n)),
        digits_value(text::decimal(n)) == n,
        n > 0 ==> text::decimal(n)[0] != '0',
    decreases n,
{
    let s = text::decimal(n);
    if n < 10 {
        assert(digits_value(s.drop_last()) == 0);
        assert(s.last() == s[0]);
    } else {
        law_decimal_is_read_back(n / 10);
        let front = text::decimal(n / 10);
        assert(s.drop_last() =~= front);
        assert forall|i: int| 0 <= i < s.len() implies is_digit(#[trigger] s[i]) by {
            if i < front.len() {
                assert(is_digit(front[i]));
            }
        }
        assert(s[0] == front[0]);
    }
}

/// A whole number in decimal is taken as itself where it is not too large, and else refused.
pub proof fn law_written_number_is_taken(n: nat, max: nat, r: Option<u64>)
    requires
        1 <= n < 0x1_0000_0000,
        max < 0x1_0000_0000,
        coerced(text::decimal(n), max, r),
    ensures
        n <= max ==> r == Some(n as u64),
        n > max ==> r is None,
{
    let s = text::decimal(n);
    law_decimal_is_read_back(n);
    law_decimal_reads_as_itself(s, n);
    if let Some(m) = r {
        law_reads_as_one(s, m as nat, n);
    }
}

} // verus!
