//! Integer helpers for the pet's movement and counters: wrapping tick
//! increment, integer square root, and the chase step's quotient by a real
//! square root, rounded to the nearest integer (ties away from zero).

use vstd::prelude::*;

verus! {

/// A tick counter advances by one and wraps around at the top of `u32`.
pub open spec fn inc32(x: u32) -> u32 {
    if x == u32::MAX {
        0u32
    } else {
        (x + 1) as u32
    }
}

/// Floor of the square root, defined by counting up; see
/// `lemma_isqrt_bracket` for the usual characterization.
pub open spec fn isqrt_spec(n: int) -> int
    decreases n,
{
    if n <= 0 {
        0
    } else {
        let p = isqrt_spec(n - 1);
        if (p + 1) * (p + 1) <= n {
            p + 1
        } else {
            p
        }
    }
}

/// `isqrt_spec(n)` is the unique `r >= 0` with `r * r <= n < (r + 1) * (r + 1)`.
pub proof fn lemma_isqrt_bracket(n: int)
    requires
        n >= 0,
    ensures
        0 <= isqrt_spec(n),
        isqrt_spec(n) * isqrt_spec(n) <= n,
        n < (isqrt_spec(n) + 1) * (isqrt_spec(n) + 1),
    decreases n,
{
    if n > 0 {
        lemma_isqrt_bracket(n - 1);
        let p = isqrt_spec(n - 1);
        if (p + 1) * (p + 1) <= n {
            assert(n - 1 < (p + 1) * (p + 1));
            assert((p + 2) * (p + 2) > (p + 1) * (p + 1)) by (nonlinear_arith)
                requires p >= 0;
        }
    }
}

/// Any two values bracketed the same way are equal, so an implementation
/// that meets the bracket computes exactly `isqrt_spec`.
pub proof fn lemma_isqrt_unique(n: int, r1: int, r2: int)
    requires
        0 <= r1,
        r1 * r1 <= n,
        n < (r1 + 1) * (r1 + 1),
        0 <= r2,
        r2 * r2 <= n,
        n < (r2 + 1) * (r2 + 1),
    ensures
        r1 == r2,
{
    assert(r1 == r2) by (nonlinear_arith)
        requires
            0 <= r1,
            r1 * r1 <= n,
            n < (r1 + 1) * (r1 + 1),
            0 <= r2,
            r2 * r2 <= n,
            n < (r2 + 1) * (r2 + 1);
}

/// Integer square root by bisection.
pub fn isqrt(n: i64) -> (r: i64)
    requires
        0 <= n <= 16_000_000_000_000,
    ensures
        r == isqrt_spec(n as int),
        0 <= r,
        r * r <= n,
        n < (r + 1) * (r + 1),
{
    let mut lo: i64 = 0;
    let mut hi: i64 = 4_100_000;
    assert(hi * hi > n);
    while lo + 1 < hi
        invariant
            0 <= lo < hi <= 4_100_000,
            lo * lo <= n,
            n < hi * hi,
        decreases hi - lo,
    {
        let mid = lo + (hi - lo) / 2;
        assert(lo < mid < hi);
        assert(mid * mid <= 4_100_000i64 * 4_100_000i64) by (nonlinear_arith)
            requires 0 <= mid <= 4_100_000i64;
        if mid * mid <= n {
            lo = mid;
        } else {
            hi = mid;
        }
    }
    proof {
        lemma_isqrt_bracket(n as int);
        lemma_isqrt_unique(n as int, lo as int, isqrt_spec(n as int));
    }
    lo
}

/// `round(p / sqrt(s))`, ties away from zero: the chase step's share of a
/// delta `p = dx * speed` against the true Euclidean distance `sqrt(s)`.
/// Defined through the integer square root of `4 * p * p / s`; see
/// `lemma_round_div_sqrt_bracket` for the inequalities that pin it as the
/// exactly rounded quotient.
pub open spec fn round_div_sqrt_spec(p: int, s: int) -> int
    recommends
        s >= 1,
{
    let k = (isqrt_spec((4 * p * p) / s) + 1) / 2;
    if p >= 0 {
        k
    } else {
        -k
    }
}

/// For `p >= 0`, `k = round_div_sqrt_spec(p, s)` is the rounded quotient
/// `round(p / sqrt(s))` with ties up: `k - 1/2 <= p / sqrt(s) < k + 1/2`,
/// stated free of square roots as `(2k - 1)^2 * s <= 4 * p^2 < (2k + 1)^2 * s`
/// (the lower bound holding vacuously at `k = 0`).
pub proof fn lemma_round_div_sqrt_bracket(p: int, s: int)
    requires
        p >= 0,
        s >= 1,
    ensures
        round_div_sqrt_spec(p, s) >= 0,
        4 * p * p < (2 * round_div_sqrt_spec(p, s) + 1) * (2 * round_div_sqrt_spec(p, s) + 1) * s,
        round_div_sqrt_spec(p, s) >= 1 ==> (2 * round_div_sqrt_spec(p, s) - 1) * (2
            * round_div_sqrt_spec(p, s) - 1) * s <= 4 * p * p,
{
    let pp = 4 * p * p;
    assert(pp >= 0) by (nonlinear_arith)
        requires p >= 0, pp == 4 * p * p;
    let dq = pp / s;
    vstd::arithmetic::div_mod::lemma_fundamental_div_mod(pp, s);
    vstd::arithmetic::div_mod::lemma_div_pos_is_pos(pp, s);
    lemma_isqrt_bracket(dq);
    let u = isqrt_spec(dq);
    let k = (u + 1) / 2;
    assert(round_div_sqrt_spec(p, s) == k);
    assert(s * (dq + 1) == s * dq + s) by (nonlinear_arith);
    if u % 2 == 0 {
        assert(u == 2 * k);
        assert(dq + 1 <= (2 * k + 1) * (2 * k + 1));
        assert(s * (dq + 1) <= s * ((2 * k + 1) * (2 * k + 1))) by (nonlinear_arith)
            requires s >= 1, dq + 1 <= (2 * k + 1) * (2 * k + 1);
        assert(pp < s * (dq + 1));
        assert(s * ((2 * k + 1) * (2 * k + 1)) == (2 * k + 1) * (2 * k + 1) * s)
            by (nonlinear_arith);
    } else {
        assert(u == 2 * k - 1);
        assert(dq + 1 <= (2 * k) * (2 * k));
        assert(s * (dq + 1) <= s * ((2 * k) * (2 * k))) by (nonlinear_arith)
            requires s >= 1, dq + 1 <= (2 * k) * (2 * k);
        assert(pp < s * (dq + 1));
        assert(s * ((2 * k) * (2 * k)) <= (2 * k + 1) * (2 * k + 1) * s) by (nonlinear_arith)
            requires s >= 1, k >= 0;
    }
    if k >= 1 {
        assert(u >= 2 * k - 1);
        assert((2 * k - 1) * (2 * k - 1) <= u * u) by (nonlinear_arith)
            requires 1 <= 2 * k - 1 <= u;
        assert(u * u <= dq);
        assert((2 * k - 1) * (2 * k - 1) * s <= dq * s) by (nonlinear_arith)
            requires s >= 1, (2 * k - 1) * (2 * k - 1) <= dq;
        assert(dq * s == s * dq) by (nonlinear_arith);
        assert(dq * s <= pp);
    }
}

/// The bracket pins the value: any two integers that both satisfy it for
/// the same `p` and `s` are equal, so `round_div_sqrt_spec` is the one
/// rounded quotient.
pub proof fn lemma_round_div_sqrt_unique(p: int, s: int, k1: int, k2: int)
    requires
        p >= 0,
        s >= 1,
        k1 >= 0,
        4 * p * p < (2 * k1 + 1) * (2 * k1 + 1) * s,
        k1 >= 1 ==> (2 * k1 - 1) * (2 * k1 - 1) * s <= 4 * p * p,
        k2 >= 0,
        4 * p * p < (2 * k2 + 1) * (2 * k2 + 1) * s,
        k2 >= 1 ==> (2 * k2 - 1) * (2 * k2 - 1) * s <= 4 * p * p,
    ensures
        k1 == k2,
{
    if k1 < k2 {
        assert(false) by (nonlinear_arith)
            requires
                s >= 1,
                0 <= k1 < k2,
                4 * p * p < (2 * k1 + 1) * (2 * k1 + 1) * s,
                (2 * k2 - 1) * (2 * k2 - 1) * s <= 4 * p * p;
    }
    if k2 < k1 {
        assert(false) by (nonlinear_arith)
            requires
                s >= 1,
                0 <= k2 < k1,
                4 * p * p < (2 * k2 + 1) * (2 * k2 + 1) * s,
                (2 * k1 - 1) * (2 * k1 - 1) * s <= 4 * p * p;
    }
}

/// With `speed` at most `sqrt(s)`, the rounded step
/// `round(delta * speed / sqrt(s))` never exceeds `delta`.
pub proof fn lemma_round_div_sqrt_le(dx: int, spd: int, s: int)
    requires
        dx >= 0,
        1 <= spd,
        spd * spd <= s,
    ensures
        0 <= round_div_sqrt_spec(dx * spd, s) <= dx,
{
    let p = dx * spd;
    assert(p >= 0) by (nonlinear_arith)
        requires dx >= 0, spd >= 1, p == dx * spd;
    assert(s >= 1) by (nonlinear_arith)
        requires spd >= 1, spd * spd <= s;
    lemma_round_div_sqrt_bracket(p, s);
    let k = round_div_sqrt_spec(p, s);
    if k > dx {
        assert(4 * p * p <= 4 * dx * dx * s) by (nonlinear_arith)
            requires p == dx * spd, spd * spd <= s, dx >= 0, spd >= 1;
        assert(false) by (nonlinear_arith)
            requires
                k >= dx + 1,
                dx >= 0,
                s >= 1,
                (2 * k - 1) * (2 * k - 1) * s <= 4 * p * p,
                4 * p * p <= 4 * dx * dx * s;
    }
}

/// `round(p / sqrt(s))`, ties away from zero, in integer arithmetic alone:
/// the quotient `4 * p * p / s` (in 128 bits, exactly) and its integer
/// square root `u` give the step as `(u + 1) / 2`.
pub fn round_div_sqrt(p: i64, s: i64) -> (r: i64)
    requires
        1 <= s <= 8_000_000_000_000,
        -3_000_000_000 <= p <= 3_000_000_000,
        p * p <= 4_000_000_000_000 * s,
    ensures
        r == round_div_sqrt_spec(p as int, s as int),
{
    let pa: i64 = if p >= 0 {
        p
    } else {
        -p
    };
    proof {
        assert(0 <= (pa as int) * (pa as int) <= 9_000_000_000_000_000_000) by (nonlinear_arith)
            requires 0 <= pa as int <= 3_000_000_000;
        assert((pa as int) * (pa as int) == (p as int) * (p as int)) by (nonlinear_arith)
            requires pa as int == if p as int >= 0 { p as int } else { -(p as int) };
    }
    let num: u128 = 4u128 * ((pa as u128) * (pa as u128));
    proof {
        assert(num == 4 * ((p as int) * (p as int)));
        assert((4 * (p as int)) * (p as int) == 4 * ((p as int) * (p as int))) by (nonlinear_arith);
        assert(num <= 16_000_000_000_000 * (s as int)) by (nonlinear_arith)
            requires
                num == 4 * ((p as int) * (p as int)),
                (p as int) * (p as int) <= 4_000_000_000_000 * (s as int);
    }
    let q128: u128 = num / (s as u128);
    proof {
        vstd::arithmetic::div_mod::lemma_div_is_ordered(
            num as int,
            16_000_000_000_000 * (s as int),
            s as int,
        );
        vstd::arithmetic::div_mod::lemma_div_multiples_vanish(16_000_000_000_000, s as int);
        assert(q128 <= 16_000_000_000_000);
    }
    let q: i64 = q128 as i64;
    let u: i64 = isqrt(q);
    proof {
        assert(u <= 4_100_000) by (nonlinear_arith)
            requires 0 <= u as int, (u as int) * (u as int) <= 16_000_000_000_000;
    }
    let k: i64 = (u + 1) / 2;
    if p >= 0 {
        k
    } else {
        -k
    }
}

} // verus!
