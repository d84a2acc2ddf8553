//! Integer scalar helpers: truncating division and multiplication bounds.

use vstd::prelude::*;
use vstd::arithmetic::div_mod::lemma_div_multiples_vanish;
use vstd::arithmetic::div_mod::lemma_div_nonincreasing;
use vstd::arithmetic::div_mod::lemma_div_pos_is_pos;

verus! {

/// Quotient of `a` by `n`, rounded toward zero, the way hardware integer
/// division rounds.
pub open spec fn tdiv(a: int, n: int) -> int
    recommends
        1 <= n,
{
    if a >= 0 {
        a / n
    } else {
        -((-a) / n)
    }
}

/// Dividing an exact multiple of `n` by `n` recovers the factor.
pub proof fn lemma_tdiv_exact(k: int, n: int)
    requires
        1 <= n,
    ensures
        tdiv(k * n, n) == k,
{
    if k >= 0 {
        assert(k * n >= 0) by (nonlinear_arith)
            requires
                k >= 0,
                n >= 1,
        ;
        lemma_div_multiples_vanish(k, n);
        assert(n * k == k * n) by (nonlinear_arith);
    } else {
        assert(k * n < 0) by (nonlinear_arith)
            requires
                k < 0,
                n >= 1,
        ;
        assert(-(k * n) == (-k) * n) by (nonlinear_arith);
        lemma_div_multiples_vanish(-k, n);
        assert(n * (-k) == (-k) * n) by (nonlinear_arith);
    }
}

/// Truncating division never grows the magnitude and never flips the sign.
pub proof fn lemma_tdiv_bound(a: int, n: int)
    requires
        1 <= n,
    ensures
        a >= 0 ==> 0 <= tdiv(a, n) <= a,
        a < 0 ==> a <= tdiv(a, n) <= 0,
{
    if a >= 0 {
        lemma_div_pos_is_pos(a, n);
        lemma_div_nonincreasing(a, n);
    } else {
        lemma_div_pos_is_pos(-a, n);
        lemma_div_nonincreasing(-a, n);
    }
}

/// Truncating `i64` division, computed through unsigned division so that the
/// rounding direction is explicit.
pub fn div_trunc(a: i64, n: i64) -> (r: i64)
    requires
        1 <= n,
        i64::MIN < a,
    ensures
        r as int == tdiv(a as int, n as int),
{
    proof {
        lemma_tdiv_bound(a as int, n as int);
    }
    if a >= 0 {
        let q: u64 = (a as u64) / (n as u64);
        q as i64
    } else {
        let q: u64 = ((-a) as u64) / (n as u64);
        -(q as i64)
    }
}

/// Bounds on both factors bound their product.
pub proof fn lemma_mul_bound(a: int, b: int, aa: int, bb: int)
    by (nonlinear_arith)
    requires
        -aa <= a <= aa,
        -bb <= b <= bb,
    ensures
        -(aa * bb) <= a * b <= aa * bb,
{
}

} // verus!
