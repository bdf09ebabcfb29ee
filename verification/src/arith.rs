//! Fixed-point arithmetic primitives.
//!
//! Quantities are `i64` values in millionths of a unit. The workhorse
//! operation is `a * b / d` with the division truncated toward zero, computed
//! through 128-bit intermediates so that it never overflows; a checked
//! variant reports when the mathematical result leaves the symmetric
//! `i64` range instead of failing.

use vstd::prelude::*;

verus! {

/// Largest magnitude a quantity may take: the symmetric `i64` range.
/// `i64::MIN` is excluded so that negation never overflows.
pub const MAG_MAX: i64 = 0x7fff_ffff_ffff_ffff;

/// Absolute value of a mathematical integer.
pub open spec fn iabs(x: int) -> int {
    if x >= 0 {
        x
    } else {
        -x
    }
}

/// `x` lies in the symmetric `i64` range.
pub open spec fn in64(x: int) -> bool {
    -(MAG_MAX as int) <= x <= MAG_MAX as int
}

/// Division truncated toward zero, as the hardware performs it
/// (the spec-level `/` is Euclidean, which differs on negative operands).
pub open spec fn tdiv(a: int, d: int) -> int {
    if (a >= 0) == (d >= 0) {
        iabs(a) / iabs(d)
    } else {
        -(iabs(a) / iabs(d))
    }
}

/// `a * b / d` with the division truncated toward zero: the single
/// rounding step of every fixed-point multiply or divide in the engine.
pub open spec fn tmd(a: int, b: int, d: int) -> int {
    tdiv(a * b, d)
}

/// `x` clamped into `Option`: `Some` exactly when it fits the symmetric range.
pub open spec fn c64(x: int) -> Option<i64> {
    if in64(x) {
        Some(x as i64)
    } else {
        None
    }
}

/// The magnitude of a product is the product of the magnitudes.
pub proof fn lemma_iabs_mul(a: int, b: int)
    ensures
        iabs(a * b) == iabs(a) * iabs(b),
{
    if a >= 0 && b >= 0 {
        assert(a * b >= 0) by (nonlinear_arith)
            requires
                a >= 0,
                b >= 0,
        ;
    } else if a < 0 && b < 0 {
        assert(a * b == (-a) * (-b) && (-a) * (-b) >= 0) by (nonlinear_arith)
            requires
                a < 0,
                b < 0,
        ;
    } else if a < 0 {
        assert(a * b <= 0 && (-a) * b == -(a * b)) by (nonlinear_arith)
            requires
                a < 0,
                b >= 0,
        ;
    } else {
        assert(a * b <= 0 && a * (-b) == -(a * b)) by (nonlinear_arith)
            requires
                a >= 0,
                b < 0,
        ;
    }
}

/// Truncating division can only shrink a magnitude bound on the numerator.
pub proof fn lemma_tdiv_bound(a: int, d: int, bound: int)
    requires
        d != 0,
        iabs(a) <= bound,
    ensures
        iabs(tdiv(a, d)) <= bound,
{
    vstd::arithmetic::div_mod::lemma_div_is_ordered(iabs(a), bound, iabs(d));
    vstd::arithmetic::div_mod::lemma_div_pos_is_pos(iabs(a), iabs(d));
    assert(bound / iabs(d) <= bound) by (nonlinear_arith)
        requires
            bound >= 0,
            iabs(d) >= 1,
    ;
}

/// Sharper magnitude bound that keeps the divisor: if `|a| <= x` and
/// `|b| <= y` then `|a * b / d| <= x * y / |d|`.
pub proof fn lemma_tmd_mag(a: int, b: int, d: int, x: int, y: int)
    requires
        d != 0,
        iabs(a) <= x,
        iabs(b) <= y,
    ensures
        iabs(tmd(a, b, d)) <= (x * y) / iabs(d),
{
    lemma_iabs_mul(a, b);
    assert(iabs(a) * iabs(b) <= x * y) by (nonlinear_arith)
        requires
            0 <= iabs(a) <= x,
            0 <= iabs(b) <= y,
    ;
    vstd::arithmetic::div_mod::lemma_div_is_ordered(iabs(a * b), x * y, iabs(d));
}

/// A zero factor gives a zero product, whatever the divisor.
pub proof fn lemma_tmd_zero(b: int, d: int)
    requires
        d != 0,
    ensures
        tmd(0, b, d) == 0,
{
    assert(0 * b == 0) by (nonlinear_arith);
    vstd::arithmetic::div_mod::lemma_div_of0(iabs(d));
}

/// A product of nonnegative factors divided by a positive divisor
/// stays nonnegative.
pub proof fn lemma_tmd_nonneg(a: int, b: int, d: int)
    requires
        0 <= a,
        0 <= b,
        0 < d,
    ensures
        0 <= tmd(a, b, d),
{
    assert(a * b >= 0) by (nonlinear_arith)
        requires
            a >= 0,
            b >= 0,
    ;
    vstd::arithmetic::div_mod::lemma_div_pos_is_pos(a * b, d);
}

/// The fixed-point multiply is monotone in its first argument, for
/// nonnegative operands.
pub proof fn lemma_tmd_monotone(a1: int, a2: int, b: int, d: int)
    requires
        0 <= a1 <= a2,
        0 <= b,
        0 < d,
    ensures
        tmd(a1, b, d) <= tmd(a2, b, d),
{
    assert(0 <= a1 * b <= a2 * b) by (nonlinear_arith)
        requires
            0 <= a1 <= a2,
            0 <= b,
    ;
    vstd::arithmetic::div_mod::lemma_div_is_ordered(a1 * b, a2 * b, d);
}

/// `a * b / d`, truncated toward zero.
///
/// The caller guarantees the result fits; `mul_div_checked` is the
/// self-guarding form.
pub fn mul_div(a: i64, b: i64, d: i64) -> (r: i64)
    requires
        d != 0,
        in64(tmd(a as int, b as int, d as int)),
    ensures
        r as int == tmd(a as int, b as int, d as int),
{
    match mul_div_checked(a, b, d) {
        Some(v) => v,
        None => {
            proof {
                assert(false);
            }
            0
        },
    }
}

/// `a * b / d` truncated toward zero, or `None` when the result would
/// leave the symmetric `i64` range.
pub fn mul_div_checked(a: i64, b: i64, d: i64) -> (r: Option<i64>)
    requires
        d != 0,
    ensures
        r == c64(tmd(a as int, b as int, d as int)),
{
    let ai: i128 = a as i128;
    let bi: i128 = b as i128;
    let di: i128 = d as i128;
    let ma: u128 = if ai < 0 {
        (-ai) as u128
    } else {
        ai as u128
    };
    let mb: u128 = if bi < 0 {
        (-bi) as u128
    } else {
        bi as u128
    };
    let md: u128 = if di < 0 {
        (-di) as u128
    } else {
        di as u128
    };
    proof {
        assert(ma == iabs(a as int) && mb == iabs(b as int) && md == iabs(d as int));
        assert(ma * mb <= 0x8000_0000_0000_0000u128 * 0x8000_0000_0000_0000u128)
            by (nonlinear_arith)
            requires
                ma <= 0x8000_0000_0000_0000u128,
                mb <= 0x8000_0000_0000_0000u128,
        ;
        lemma_iabs_mul(a as int, b as int);
    }
    let q: u128 = (ma * mb) / md;
    proof {
        assert(q == iabs((a as int) * (b as int)) / iabs(d as int));
        assert(iabs(tmd(a as int, b as int, d as int)) == q);
    }
    let neg: bool = ((a < 0) != (b < 0)) != (d < 0);
    proof {
        let ab = (a as int) * (b as int);
        if a as int == 0 || b as int == 0 {
            assert(ab == 0) by (nonlinear_arith)
                requires
                    ab == (a as int) * (b as int),
                    a as int == 0 || b as int == 0,
            ;
            vstd::arithmetic::div_mod::lemma_div_of0(iabs(d as int));
            assert(q == 0);
        } else if ((a as int) < 0) == ((b as int) < 0) {
            assert(ab > 0) by (nonlinear_arith)
                requires
                    ab == (a as int) * (b as int),
                    a as int != 0,
                    b as int != 0,
                    ((a as int) < 0) == ((b as int) < 0),
            ;
        } else {
            assert(ab < 0) by (nonlinear_arith)
                requires
                    ab == (a as int) * (b as int),
                    a as int != 0,
                    b as int != 0,
                    ((a as int) < 0) != ((b as int) < 0),
            ;
        }
        assert(tmd(a as int, b as int, d as int) == if neg {
            -(q as int)
        } else {
            q as int
        });
    }
    if q > MAG_MAX as u128 {
        None
    } else {
        let m: i64 = q as i64;
        if neg {
            Some(-m)
        } else {
            Some(m)
        }
    }
}

/// `a + b`, or `None` when the sum leaves the symmetric `i64` range.
pub fn add_checked(a: i64, b: i64) -> (r: Option<i64>)
    ensures
        r == c64(a as int + b as int),
{
    let s: i128 = a as i128 + b as i128;
    if s > MAG_MAX as i128 || s < -(MAG_MAX as i128) {
        None
    } else {
        Some(s as i64)
    }
}

/// `a - b`, or `None` when the difference leaves the symmetric `i64` range.
pub fn sub_checked(a: i64, b: i64) -> (r: Option<i64>)
    ensures
        r == c64(a as int - b as int),
{
    let s: i128 = a as i128 - b as i128;
    if s > MAG_MAX as i128 || s < -(MAG_MAX as i128) {
        None
    } else {
        Some(s as i64)
    }
}

/// The integer square root: the greatest `r` with `r * r <= n`.
pub open spec fn sqrt_floor(n: int) -> int
    decreases n,
{
    if n <= 0 {
        0
    } else {
        let p = sqrt_floor(n - 1);
        if (p + 1) * (p + 1) <= n {
            p + 1
        } else {
            p
        }
    }
}

/// `sqrt_floor` is characterized by `r * r <= n < (r + 1) * (r + 1)`.
pub proof fn lemma_sqrt_floor_bounds(n: int)
    requires
        n >= 0,
    ensures
        0 <= sqrt_floor(n),
        sqrt_floor(n) * sqrt_floor(n) <= n,
        n < (sqrt_floor(n) + 1) * (sqrt_floor(n) + 1),
    decreases n,
{
    if n == 0 {
        assert(sqrt_floor(0) == 0);
    } else {
        lemma_sqrt_floor_bounds(n - 1);
        let p = sqrt_floor(n - 1);
        if (p + 1) * (p + 1) <= n {
            assert(n - 1 < (p + 1) * (p + 1));
            assert(n < (p + 2) * (p + 2)) by (nonlinear_arith)
                requires
                    n <= (p + 1) * (p + 1),
                    p >= 0,
            ;
        }
    }
}

/// No two integers satisfy the square-root characterization at once.
pub proof fn lemma_sqrt_floor_unique(n: int, r: int)
    requires
        n >= 0,
        r >= 0,
        r * r <= n,
        n < (r + 1) * (r + 1),
    ensures
        r == sqrt_floor(n),
{
    lemma_sqrt_floor_bounds(n);
    let s = sqrt_floor(n);
    if r < s {
        assert((r + 1) * (r + 1) <= s * s) by (nonlinear_arith)
            requires
                0 <= r,
                r + 1 <= s,
        ;
    } else if s < r {
        assert((s + 1) * (s + 1) <= r * r) by (nonlinear_arith)
            requires
                0 <= s,
                s + 1 <= r,
        ;
    }
}

/// Integer square root of a 128-bit value, by bisection.
pub fn isqrt(n: u128) -> (r: u64)
    ensures
        r as int == sqrt_floor(n as int),
{
    proof {
        lemma_sqrt_floor_bounds(n as int);
    }
    let mut lo: u64 = 0;
    let mut hi: u64 = u64::MAX;
    proof {
        assert((hi as int + 1) * (hi as int + 1) > u128::MAX as int) by (nonlinear_arith)
            requires
                hi == u64::MAX,
        ;
    }
    while lo < hi
        invariant
            lo <= hi,
            (lo as int) * (lo as int) <= n as int,
            (n as int) < ((hi as int) + 1) * ((hi as int) + 1),
        decreases hi - lo,
    {
        let mid: u64 = lo + (hi - lo - 1) / 2 + 1;
        proof {
            assert((mid as int) * (mid as int) <= (u64::MAX as int) * (u64::MAX as int))
                by (nonlinear_arith)
                requires
                    mid <= u64::MAX,
            ;
        }
        let sq: u128 = (mid as u128) * (mid as u128);
        if sq <= n {
            lo = mid;
        } else {
            hi = mid - 1;
        }
    }
    proof {
        lemma_sqrt_floor_unique(n as int, lo as int);
    }
    lo
}

} // verus!
