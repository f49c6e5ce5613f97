//! Integer division with the three roundings the lattice needs: down, up, and
//! to the nearest integer with ties going away from zero.

use vstd::prelude::*;
use vstd::arithmetic::div_mod::*;

verus! {

/// The quotient `a / d` rounded down. Meaningful for `d > 0`.
pub open spec fn floor_div(a: int, d: int) -> int {
    a / d
}

/// The quotient `a / d` rounded up. Meaningful for `d > 0`.
pub open spec fn ceil_div(a: int, d: int) -> int {
    -((-a) / d)
}

/// The quotient `a / d` rounded to the nearest integer; a quotient exactly
/// halfway between two integers goes to the one farther from zero.
/// Meaningful for `d > 0`.
pub open spec fn round_div(a: int, d: int) -> int {
    if a >= 0 {
        (2 * a + d) / (2 * d)
    } else {
        -((d - 2 * a) / (2 * d))
    }
}

/// `floor_div(a, d)` is the one integer `q` with `q * d <= a < (q + 1) * d`.
pub proof fn lemma_floor_div_bounds(a: int, d: int)
    requires
        d > 0,
    ensures
        floor_div(a, d) * d <= a < floor_div(a, d) * d + d,
{
    lemma_fundamental_div_mod(a, d);
    lemma_mod_bound(a, d);
    assert(floor_div(a, d) * d == d * (a / d)) by (nonlinear_arith);
}

/// `ceil_div(a, d)` is the one integer `q` with `(q - 1) * d < a <= q * d`.
pub proof fn lemma_ceil_div_bounds(a: int, d: int)
    requires
        d > 0,
    ensures
        ceil_div(a, d) * d - d < a <= ceil_div(a, d) * d,
{
    lemma_fundamental_div_mod(-a, d);
    lemma_mod_bound(-a, d);
    assert(ceil_div(a, d) * d == -(d * ((-a) / d))) by (nonlinear_arith);
}

/// Any integer `q` with `q * d <= a < (q + 1) * d` is `floor_div(a, d)`.
pub proof fn lemma_floor_div_unique(a: int, d: int, q: int)
    requires
        d > 0,
        q * d <= a < q * d + d,
    ensures
        floor_div(a, d) == q,
{
    assert(a == q * d + (a - q * d));
    lemma_fundamental_div_mod_converse(a, d, q, a - q * d);
}

/// Any integer `q` with `(q - 1) * d < a <= q * d` is `ceil_div(a, d)`.
pub proof fn lemma_ceil_div_unique(a: int, d: int, q: int)
    requires
        d > 0,
        q * d - d < a <= q * d,
    ensures
        ceil_div(a, d) == q,
{
    assert((-q) * d == -(q * d)) by (nonlinear_arith);
    lemma_floor_div_unique(-a, d, -q);
}

/// Where `round_div(a, d)` lies: within half a step of `a / d`, the half-way
/// point itself belonging to the side away from zero.
pub proof fn lemma_round_div_bounds(a: int, d: int)
    requires
        d > 0,
    ensures
        a >= 0 ==> 2 * (round_div(a, d) * d) - d <= 2 * a < 2 * (round_div(a, d) * d) + d,
        a < 0 ==> 2 * (round_div(a, d) * d) - d < 2 * a <= 2 * (round_div(a, d) * d) + d,
        a >= 0 ==> round_div(a, d) >= 0,
        a < 0 ==> round_div(a, d) <= 0,
{
    if a >= 0 {
        let q = (2 * a + d) / (2 * d);
        lemma_floor_div_bounds(2 * a + d, 2 * d);
        assert(q * (2 * d) == 2 * (q * d)) by (nonlinear_arith);
        lemma_div_pos_is_pos(2 * a + d, 2 * d);
    } else {
        let q = (d - 2 * a) / (2 * d);
        lemma_floor_div_bounds(d - 2 * a, 2 * d);
        assert(q * (2 * d) == 2 * (q * d)) by (nonlinear_arith);
        assert((-q) * d == -(q * d)) by (nonlinear_arith);
        lemma_div_pos_is_pos(d - 2 * a, 2 * d);
    }
}

/// Any `q` that lies where `lemma_round_div_bounds` says is `round_div(a, d)`.
pub proof fn lemma_round_div_unique(a: int, d: int, q: int)
    requires
        d > 0,
        a >= 0 ==> 2 * (q * d) - d <= 2 * a < 2 * (q * d) + d,
        a < 0 ==> 2 * (q * d) - d < 2 * a <= 2 * (q * d) + d,
    ensures
        round_div(a, d) == q,
{
    if a >= 0 {
        assert(q * (2 * d) == 2 * (q * d)) by (nonlinear_arith);
        lemma_floor_div_unique(2 * a + d, 2 * d, q);
    } else {
        assert((-q) * (2 * d) == -(2 * (q * d))) by (nonlinear_arith);
        lemma_floor_div_unique(d - 2 * a, 2 * d, -q);
    }
}

/// A multiple of the step rounds to itself.
pub proof fn lemma_round_div_multiple(k: int, d: int)
    requires
        d > 0,
    ensures
        round_div(k * d, d) == k,
{
    lemma_round_div_unique(k * d, d, k);
}

/// No multiple of `d` is nearer to `a` than `round_div(a, d) * d`.
pub proof fn lemma_round_div_nearest(a: int, d: int, k: int)
    requires
        d > 0,
    ensures
        vstd::math::abs(a - round_div(a, d) * d) <= vstd::math::abs(a - k * d),
        2 * vstd::math::abs(a - round_div(a, d) * d) <= d,
{
    let q = round_div(a, d);
    lemma_round_div_bounds(a, d);
    if k > q {
        assert(k * d >= q * d + d) by (nonlinear_arith)
            requires
                k >= q + 1,
                d > 0,
        ;
    } else if k < q {
        assert(k * d <= q * d - d) by (nonlinear_arith)
            requires
                k <= q - 1,
                d > 0,
        ;
    }
}

/// Rounds `a / d` down.
pub fn floor_div_i64(a: i64, d: i64) -> (q: i64)
    requires
        d > 0,
    ensures
        q == floor_div(a as int, d as int),
{
    if a >= 0 {
        a / d
    } else {
        let m: i64 = -(a + 1);
        let t: i64 = m / d;
        proof {
            lemma_floor_div_bounds(m as int, d as int);
            assert((-(t as int) - 1) * (d as int) == -((t as int) * (d as int)) - d)
                by (nonlinear_arith);
            lemma_floor_div_unique(a as int, d as int, -(t as int) - 1);
        }
        -t - 1
    }
}

/// Rounds `a / d` up.
pub fn ceil_div_i64(a: i64, d: i64) -> (q: i64)
    requires
        d > 0,
    ensures
        q == ceil_div(a as int, d as int),
{
    if a > 0 {
        let t: i64 = (a - 1) / d;
        proof {
            lemma_floor_div_bounds(a - 1, d as int);
            assert(((t as int) + 1) * (d as int) == (t as int) * (d as int) + d)
                by (nonlinear_arith);
            lemma_ceil_div_unique(a as int, d as int, t + 1);
        }
        t + 1
    } else if a == 0 {
        proof {
            lemma_ceil_div_unique(0, d as int, 0);
        }
        0
    } else {
        let m: i64 = -(a + 1);
        let t: i64 = m / d;
        let r: i64 = m % d;
        proof {
            lemma_fundamental_div_mod(m as int, d as int);
            lemma_mod_bound(m as int, d as int);
            assert((d as int) * (t as int) == (t as int) * (d as int)) by (nonlinear_arith);
        }
        if r == d - 1 {
            proof {
                assert((-(t as int) - 1) * (d as int) == -((t as int) * (d as int)) - d)
                    by (nonlinear_arith);
                lemma_ceil_div_unique(a as int, d as int, -(t as int) - 1);
            }
            -t - 1
        } else {
            proof {
                assert((-(t as int)) * (d as int) == -((t as int) * (d as int)))
                    by (nonlinear_arith);
                lemma_ceil_div_unique(a as int, d as int, -(t as int));
            }
            -t
        }
    }
}

/// Rounds `a / d` to the nearest integer, ties away from zero.
pub fn round_div_i64(a: i64, d: i64) -> (q: i64)
    requires
        d > 0,
    ensures
        q == round_div(a as int, d as int),
{
    if a >= 0 {
        let t: i64 = a / d;
        let r: i64 = a % d;
        proof {
            lemma_fundamental_div_mod(a as int, d as int);
            lemma_mod_bound(a as int, d as int);
            assert((d as int) * (t as int) == (t as int) * (d as int)) by (nonlinear_arith);
            assert(((t as int) + 1) * (d as int) == (t as int) * (d as int) + d)
                by (nonlinear_arith);
            assert((t as int) * (d as int) >= t) by (nonlinear_arith)
                requires
                    t >= 0,
                    d >= 1,
            ;
        }
        if r >= d - r {
            proof {
                lemma_round_div_unique(a as int, d as int, t + 1);
            }
            t + 1
        } else {
            proof {
                lemma_round_div_unique(a as int, d as int, t as int);
            }
            t
        }
    } else {
        let m: i64 = -(a + 1);
        let t: i64 = m / d;
        let r: i64 = m % d;
        proof {
            lemma_fundamental_div_mod(m as int, d as int);
            lemma_mod_bound(m as int, d as int);
            assert((d as int) * (t as int) == (t as int) * (d as int)) by (nonlinear_arith);
            assert((-(t as int) - 1) * (d as int) == -((t as int) * (d as int)) - d)
                by (nonlinear_arith);
            assert((-(t as int)) * (d as int) == -((t as int) * (d as int)))
                by (nonlinear_arith);
        }
        // |a| = t * d + r + 1, with 1 <= r + 1 <= d.
        if r + 1 >= d - (r + 1) {
            proof {
                lemma_round_div_unique(a as int, d as int, -(t as int) - 1);
            }
            -t - 1
        } else {
            proof {
                lemma_round_div_unique(a as int, d as int, -(t as int));
            }
            -t
        }
    }
}

} // verus!
