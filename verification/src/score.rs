//! Exact score arithmetic.
//!
//! Every CVSS formula is evaluated over scaled integers so that the
//! published rounding rules come out exactly.  A score is ultimately a
//! multiple of one tenth of a point and is carried as an integer number
//! of tenths in `0 ..= 100`.
//!
//! The v3.x "roundup" rule works on the score scaled by `100 000` and
//! rounded to the nearest integer: if that integer is divisible by
//! `10 000` the score already has one decimal, otherwise the next higher
//! tenth is taken.

use vstd::prelude::*;

verus! {

use vstd::arithmetic::div_mod::{lemma_fundamental_div_mod, lemma_fundamental_div_mod_converse};

/// `p / q` rounded to the nearest integer, halves rounded up.
pub open spec fn nearest_half_up(p: int, q: int) -> int
    recommends
        p >= 0,
        q > 0,
{
    (2 * p + q) / (2 * q)
}

/// The v3.x roundup rule on a score already scaled by `100 000`,
/// returning tenths: the smallest one-decimal value that is equal to or
/// higher than the input.
pub open spec fn roundup_e5(i5: int) -> int {
    if i5 % 10000 == 0 {
        i5 / 10000
    } else {
        i5 / 10000 + 1
    }
}

/// Plain rounding of `p / q` to the nearest tenth, halves up: the rule
/// the legacy v2 formula uses instead of roundup.  `p / q` is the score
/// itself, so the result is `p * 10 / q` rounded to the nearest integer.
pub open spec fn nearest_tenths(p: int, q: int) -> int
    recommends
        p >= 0,
        q > 0,
{
    nearest_half_up(10 * p, q)
}

/// CVSS v3.1 roundup, on the score scaled by `100 000`.
///
/// `roundup(4.02) = 4.1` and `roundup(4.00) = 4.0`: the argument is the
/// score times `100 000` (so `402000` and `400000` here), the result is
/// in tenths (`41` and `40`).
pub fn roundup(score_e5: u64) -> (t: u32)
    requires
        score_e5 <= 1_000_000,
    ensures
        t == roundup_e5(score_e5 as int),
        t <= 100,
{
    let t = if score_e5 % 10000 == 0 {
        score_e5 / 10000
    } else {
        score_e5 / 10000 + 1
    };
    t as u32
}

/// `p / q` rounded to the nearest integer, halves up, on machine words.
pub fn nearest_half_up_u64(p: u64, q: u64) -> (r: u64)
    requires
        0 < q,
        p <= 0x2000_0000_0000_0000,
        q <= 0x2000_0000_0000_0000,
    ensures
        r == nearest_half_up(p as int, q as int),
        r <= p / q + 1,
{
    proof {
        lemma_nearest_half_up_close(p as int, q as int);
    }
    (2 * p + q) / (2 * q)
}

/// The nearest integer to `p / q` lies between `p / q` and `p / q + 1`.
pub proof fn lemma_nearest_half_up_close(p: int, q: int)
    requires
        p >= 0,
        q > 0,
    ensures
        p / q <= nearest_half_up(p, q) <= p / q + 1,
{
    lemma_fundamental_div_mod(p, q);
    let d = p / q;
    let r = p % q;
    // 2p + q == (2q)d + (2r + q), and 0 <= 2r + q < 2 * (2q)
    assert(2 * p + q == (2 * q) * d + (2 * r + q)) by (nonlinear_arith)
        requires
            p == q * d + r,
    ;
    if 2 * r + q < 2 * q {
        lemma_fundamental_div_mod_converse(2 * p + q, 2 * q, d, 2 * r + q);
    } else {
        assert(2 * p + q == (2 * q) * (d + 1) + (2 * r - q)) by (nonlinear_arith)
            requires
                p == q * d + r,
        ;
        lemma_fundamental_div_mod_converse(2 * p + q, 2 * q, d + 1, 2 * r - q);
    }
}

/// Dividing out a common factor of the denominator: adding any remainder
/// `b` smaller than the factor `q` cannot move the quotient.
pub proof fn lemma_div_mul_den(x: int, y: int, q: int, b: int)
    requires
        x >= 0,
        y > 0,
        q > 0,
        0 <= b < q,
    ensures
        (x * q + b) / (y * q) == x / y,
{
    lemma_fundamental_div_mod(x, y);
    let d = x / y;
    let r = x % y;
    assert(x * q + b == (y * q) * d + (r * q + b)) by (nonlinear_arith)
        requires
            x == y * d + r,
    ;
    assert(0 <= r * q + b < y * q) by (nonlinear_arith)
        requires
            0 <= r < y,
            q > 0,
            0 <= b < q,
    ;
    lemma_fundamental_div_mod_converse(x * q + b, y * q, d, r * q + b);
}

/// An upper bound for the half-up rounding: if `p / q` stays strictly
/// under `b + 1/2`, the rounded value stays at or under `b`.
pub proof fn lemma_nearest_le(p: int, q: int, b: int)
    requires
        p >= 0,
        q > 0,
        b >= 0,
        2 * p + q < (2 * q) * (b + 1),
    ensures
        nearest_half_up(p, q) <= b,
{
    lemma_fundamental_div_mod(2 * p + q, 2 * q);
    let d = (2 * p + q) / (2 * q);
    let r = (2 * p + q) % (2 * q);
    if d > b {
        assert((2 * q) * d >= (2 * q) * (b + 1)) by (nonlinear_arith)
            requires
                d >= b + 1,
                q > 0,
        ;
    }
}

} // verus!
