//! Exact rational scale factors.
//!
//! A scale factor in this pipeline is always the quotient of two machine
//! integers (a framebuffer dimension over a logical dimension), so it is
//! kept as an exact numerator/denominator pair. Rounding a scaled value to
//! the nearest integer (ties away from zero) and truncating toward zero
//! are the two coercions the pipeline needs.

use vstd::prelude::*;
use vstd::arithmetic::div_mod::{
    lemma_fundamental_div_mod, lemma_fundamental_div_mod_converse, lemma_mod_bound,
};

verus! {

/// Nearest integer to `n / d` (`d >= 1`), ties rounded away from zero.
pub open spec fn round_ratio(n: int, d: int) -> int
    recommends
        d >= 1,
{
    if n >= 0 {
        (2 * n + d) / (2 * d)
    } else {
        -((2 * (-n) + d) / (2 * d))
    }
}

/// `n / d` (`d >= 1`) truncated toward zero.
pub open spec fn trunc_ratio(n: int, d: int) -> int
    recommends
        d >= 1,
{
    if n >= 0 {
        n / d
    } else {
        -((-n) / d)
    }
}

/// Rounding to the nearest integer changes the value by at most half:
/// `|round_ratio(n, d) * d - n| <= d / 2`, stated without division.
pub proof fn lemma_round_ratio_err(n: int, d: int)
    requires
        d >= 1,
    ensures
        -d <= 2 * (round_ratio(n, d) * d - n) <= d,
{
    if n >= 0 {
        let q = (2 * n + d) / (2 * d);
        let m = (2 * n + d) % (2 * d);
        lemma_fundamental_div_mod(2 * n + d, 2 * d);
        lemma_mod_bound(2 * n + d, 2 * d);
        assert(2 * n + d == 2 * d * q + m);
        assert(2 * (q * d) == 2 * d * q) by (nonlinear_arith);
        assert(2 * (round_ratio(n, d) * d - n) == d - m);
    } else {
        let p = -n;
        let q = (2 * p + d) / (2 * d);
        let m = (2 * p + d) % (2 * d);
        lemma_fundamental_div_mod(2 * p + d, 2 * d);
        lemma_mod_bound(2 * p + d, 2 * d);
        assert(2 * p + d == 2 * d * q + m);
        assert(2 * ((-q) * d) == -(2 * d * q)) by (nonlinear_arith);
        assert(2 * (round_ratio(n, d) * d - n) == -(d - m));
    }
}

/// When `d` divides `n` exactly, rounding loses nothing:
/// `round_ratio(k * d, d) == k`.
pub proof fn lemma_round_ratio_exact(k: int, d: int)
    requires
        d >= 1,
    ensures
        round_ratio(k * d, d) == k,
{
    if k >= 0 {
        assert(k * d >= 0) by (nonlinear_arith)
            requires
                k >= 0,
                d >= 1,
        ;
        assert(2 * (k * d) + d == k * (2 * d) + d) by (nonlinear_arith);
        lemma_fundamental_div_mod_converse(2 * (k * d) + d, 2 * d, k, d);
    } else {
        assert(k * d < 0) by (nonlinear_arith)
            requires
                k < 0,
                d >= 1,
        ;
        assert(2 * (-(k * d)) + d == (-k) * (2 * d) + d) by (nonlinear_arith);
        lemma_fundamental_div_mod_converse(2 * (-(k * d)) + d, 2 * d, -k, d);
    }
}

/// An exact scale factor `num / den`; `den` is always positive.
#[derive(Debug, Clone, Copy, PartialEq, Eq, Structural)]
pub struct Ratio {
    pub num: i32,
    pub den: i32,
}

impl Ratio {
    pub open spec fn wf(self) -> bool {
        self.den >= 1
    }

    pub fn new(num: i32, den: i32) -> (r: Ratio)
        requires
            den >= 1,
        ensures
            r.num == num,
            r.den == den,
            r.wf(),
    {
        Ratio { num, den }
    }

    /// The factor that is exactly one (no rescaling).
    pub fn one() -> (r: Ratio)
        ensures
            r.num == 1,
            r.den == 1,
            r.wf(),
    {
        Ratio { num: 1, den: 1 }
    }
}

/// Nearest integer to `n / d`, ties away from zero, on machine integers.
pub fn round_ratio_exec(n: i128, d: i128) -> (r: i128)
    requires
        1 <= d <= 0x1_0000_0000,
        -0x1_0000_0000_0000_0000 <= n <= 0x1_0000_0000_0000_0000,
    ensures
        r == round_ratio(n as int, d as int),
{
    let dd: u128 = d as u128;
    if n >= 0 {
        let mag: u128 = n as u128;
        let q: u128 = (2 * mag + dd) / (2 * dd);
        proof {
            lemma_fundamental_div_mod(2 * mag + dd, 2 * dd);
            lemma_mod_bound(2 * mag + dd, 2 * dd);
            assert(q <= mag + dd) by (nonlinear_arith)
                requires
                    2 * mag + dd == 2 * dd * q + (2 * mag + dd) % (2 * dd),
                    (2 * mag + dd) % (2 * dd) >= 0,
                    dd >= 1,
                    q >= 0,
            ;
        }
        q as i128
    } else {
        let mag: u128 = (-n) as u128;
        let q: u128 = (2 * mag + dd) / (2 * dd);
        proof {
            lemma_fundamental_div_mod(2 * mag + dd, 2 * dd);
            lemma_mod_bound(2 * mag + dd, 2 * dd);
            assert(q <= mag + dd) by (nonlinear_arith)
                requires
                    2 * mag + dd == 2 * dd * q + (2 * mag + dd) % (2 * dd),
                    (2 * mag + dd) % (2 * dd) >= 0,
                    dd >= 1,
                    q >= 0,
            ;
        }
        -(q as i128)
    }
}

/// `n / d` truncated toward zero, on machine integers.
pub fn trunc_ratio_exec(n: i128, d: i128) -> (r: i128)
    requires
        1 <= d <= 0x1_0000_0000,
        -0x1_0000_0000_0000_0000 <= n <= 0x1_0000_0000_0000_0000,
    ensures
        r == trunc_ratio(n as int, d as int),
{
    let dd: u128 = d as u128;
    if n >= 0 {
        let mag: u128 = n as u128;
        let q: u128 = mag / dd;
        proof {
            lemma_fundamental_div_mod(mag as int, dd as int);
            lemma_mod_bound(mag as int, dd as int);
            assert(q <= mag) by (nonlinear_arith)
                requires
                    mag == dd * q + mag % dd,
                    mag % dd >= 0,
                    dd >= 1,
                    q >= 0,
            ;
        }
        q as i128
    } else {
        let mag: u128 = (-n) as u128;
        let q: u128 = mag / dd;
        proof {
            lemma_fundamental_div_mod(mag as int, dd as int);
            lemma_mod_bound(mag as int, dd as int);
            assert(q <= mag) by (nonlinear_arith)
                requires
                    mag == dd * q + mag % dd,
                    mag % dd >= 0,
                    dd >= 1,
                    q >= 0,
            ;
        }
        -(q as i128)
    }
}

} // verus!
