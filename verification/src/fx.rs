//! Signed 64-bit fixed-point scalars with a scale of one million.
//!
//! A value `v` stands for the real number `v / 1_000_000`.  Every operation
//! is total: results are saturated into the `i64` range and division by zero
//! yields zero, so the whole numeric layer needs no side conditions.  Each
//! executable function is proved equal to a spec-level mirror over `int`,
//! which the rest of the crate uses to state its contracts.

use vstd::arithmetic::div_mod::{
    lemma_add_mod_noop, lemma_div_is_ordered, lemma_div_multiples_vanish,
    lemma_fundamental_div_mod_converse, lemma_mod_multiples_basic, lemma_small_mod,
};
use vstd::prelude::*;

verus! {

/// One whole unit: the fixed-point scale.
pub const FX_ONE: i64 = 1000000;

/// One full turn, in fixed-point degrees.
pub const FX_TURN: i64 = 360000000;

/// Absolute value over `int`.
pub open spec fn abs_i(x: int) -> int {
    if x >= 0 {
        x
    } else {
        -x
    }
}

/// Saturation into the `i64` range.
pub open spec fn sat64(x: int) -> int {
    if x < i64::MIN as int {
        i64::MIN as int
    } else if x > i64::MAX as int {
        i64::MAX as int
    } else {
        x
    }
}

/// Division truncating toward zero; zero when the divisor is zero.
pub open spec fn tdiv(p: int, q: int) -> int {
    if q == 0 {
        0
    } else if (p >= 0) == (q >= 0) {
        abs_i(p) / abs_i(q)
    } else {
        -(abs_i(p) / abs_i(q))
    }
}

/// Saturating fixed-point addition.
pub open spec fn fx_add_s(a: int, b: int) -> int {
    sat64(a + b)
}

/// Saturating fixed-point subtraction.
pub open spec fn fx_sub_s(a: int, b: int) -> int {
    sat64(a - b)
}

/// Saturating fixed-point negation.
pub open spec fn fx_neg_s(a: int) -> int {
    sat64(-a)
}

/// Saturating fixed-point multiplication: `a * b` rescaled by one unit.
pub open spec fn fx_mul_s(a: int, b: int) -> int {
    sat64(tdiv(a * b, FX_ONE as int))
}

/// Saturating fixed-point division; zero when the divisor is zero.
pub open spec fn fx_div_s(a: int, b: int) -> int {
    sat64(tdiv(a * (FX_ONE as int), b))
}

/// Clamp `v` into `[lo, hi]`.
pub open spec fn clamp_s(v: int, lo: int, hi: int) -> int {
    if v < lo {
        lo
    } else if v > hi {
        hi
    } else {
        v
    }
}

/// Euclidean remainder of an angle by one full turn: always in `[0, FX_TURN)`.
pub open spec fn wrap_deg_s(d: int) -> int {
    d % (FX_TURN as int)
}

/// A candidate root in the sense of `sqrt_floor`.
pub open spec fn is_sqrt_floor(n: int, r: int) -> bool {
    0 <= r && r * r <= n && n < (r + 1) * (r + 1)
}

/// The nonnegative integer square root, rounded down.
pub closed spec fn sqrt_floor(n: int) -> int {
    choose|r: int| is_sqrt_floor(n, r)
}

/// The floor square root is unique, so any candidate equals `sqrt_floor`.
pub proof fn lemma_sqrt_floor_unique(n: int, r: int)
    requires
        is_sqrt_floor(n, r),
    ensures
        r == sqrt_floor(n),
{
    let w = sqrt_floor(n);
    assert(is_sqrt_floor(n, w)) by {
        assert(exists|x: int| is_sqrt_floor(n, x)) by {
            assert(is_sqrt_floor(n, r));
        }
    }
    assert(r == w) by (nonlinear_arith)
        requires
            is_sqrt_floor(n, r),
            is_sqrt_floor(n, w),
    ;
}

/// Narrow a 128-bit value into `i64`, saturating at the ends.
pub fn narrow_i128(q: i128) -> (r: i64)
    ensures
        r as int == sat64(q as int),
{
    if q < i64::MIN as i128 {
        i64::MIN
    } else if q > i64::MAX as i128 {
        i64::MAX
    } else {
        q as i64
    }
}

/// Division of 128-bit values truncating toward zero.
pub fn tdiv_i128(p: i128, q: i128) -> (r: i128)
    requires
        i128::MIN < p,
        i128::MIN < q,
    ensures
        r as int == tdiv(p as int, q as int),
        abs_i(r as int) <= abs_i(p as int),
{
    if q == 0 {
        return 0;
    }
    let pa: u128 = if p >= 0 {
        p as u128
    } else {
        (-p) as u128
    };
    let qa: u128 = if q >= 0 {
        q as u128
    } else {
        (-q) as u128
    };
    let m: u128 = pa / qa;
    proof {
        assert(qa >= 1);
        assert(m <= pa) by (nonlinear_arith)
            requires
                qa >= 1,
                m == pa / qa,
        ;
    }
    if (p >= 0) == (q >= 0) {
        m as i128
    } else {
        -(m as i128)
    }
}

/// Saturating fixed-point addition.
pub fn fx_add(a: i64, b: i64) -> (r: i64)
    ensures
        r as int == fx_add_s(a as int, b as int),
{
    narrow_i128(a as i128 + b as i128)
}

/// Saturating fixed-point subtraction.
pub fn fx_sub(a: i64, b: i64) -> (r: i64)
    ensures
        r as int == fx_sub_s(a as int, b as int),
{
    narrow_i128(a as i128 - b as i128)
}

/// Saturating fixed-point negation.
pub fn fx_neg(a: i64) -> (r: i64)
    ensures
        r as int == fx_neg_s(a as int),
{
    narrow_i128(-(a as i128))
}

/// The product of two `i64` values stays well inside the `i128` range.
pub proof fn lemma_i64_product_fits(a: int, b: int)
    requires
        i64::MIN <= a <= i64::MAX,
        i64::MIN <= b <= i64::MAX,
    ensures
        abs_i(a * b) <= 0x4000_0000_0000_0000_0000_0000_0000_0000,
{
    assert(abs_i(a * b) <= 0x4000_0000_0000_0000_0000_0000_0000_0000) by (nonlinear_arith)
        requires
            i64::MIN <= a <= i64::MAX,
            i64::MIN <= b <= i64::MAX,
    ;
}

/// Saturating fixed-point multiplication.
pub fn fx_mul(a: i64, b: i64) -> (r: i64)
    ensures
        r as int == fx_mul_s(a as int, b as int),
{
    proof {
        lemma_i64_product_fits(a as int, b as int);
    }
    let p: i128 = (a as i128) * (b as i128);
    narrow_i128(tdiv_i128(p, FX_ONE as i128))
}

/// Saturating fixed-point division; zero when the divisor is zero.
pub fn fx_div(a: i64, b: i64) -> (r: i64)
    ensures
        r as int == fx_div_s(a as int, b as int),
{
    proof {
        lemma_i64_product_fits(a as int, FX_ONE as int);
    }
    let p: i128 = (a as i128) * (FX_ONE as i128);
    narrow_i128(tdiv_i128(p, b as i128))
}

/// Clamp `v` into `[lo, hi]`.
pub fn fx_clamp(v: i64, lo: i64, hi: i64) -> (r: i64)
    requires
        lo <= hi,
    ensures
        r as int == clamp_s(v as int, lo as int, hi as int),
{
    if v < lo {
        lo
    } else if v > hi {
        hi
    } else {
        v
    }
}

/// Euclidean remainder of an angle by one full turn.
pub fn wrap_deg(d: i64) -> (r: i64)
    ensures
        r as int == wrap_deg_s(d as int),
        0 <= r < FX_TURN,
{
    let m: u128 = FX_TURN as u128;
    if d >= 0 {
        let t: u128 = (d as u128) % m;
        proof {
            lemma_small_mod((d as int % FX_TURN as int) as nat, FX_TURN as nat);
        }
        t as i64
    } else {
        let neg: u128 = (-(d as i128)) as u128;
        let t: u128 = neg % m;
        if t == 0 {
            proof {
                let k = (neg as int) / (FX_TURN as int);
                assert(neg as int == FX_TURN as int * k);
                lemma_mod_multiples_basic(-k, FX_TURN as int);
            }
            0
        } else {
            proof {
                let k = (neg as int) / (FX_TURN as int);
                assert(neg as int == FX_TURN as int * k + t as int);
                assert(d as int == FX_TURN as int * (-k - 1) + (FX_TURN as int - t as int)) by {
                    assert(d as int == -(neg as int));
                }
                lemma_fundamental_div_mod_converse(
                    d as int,
                    FX_TURN as int,
                    -k - 1,
                    FX_TURN as int - t as int,
                );
            }
            (m - t) as i64
        }
    }
}

/// The integer square root of a 128-bit value, rounded down.
pub fn isqrt_u128(n: u128) -> (r: u64)
    ensures
        r as int == sqrt_floor(n as int),
        is_sqrt_floor(n as int, r as int),
{
    let mut lo: u64 = 0;
    let mut hi: u64 = u64::MAX;
    proof {
        assert((0x10000000000000000int) * (0x10000000000000000int) > u128::MAX as int)
            by (nonlinear_arith);
        assert(hi as int + 1 == 0x10000000000000000int);
    }
    while lo < hi
        invariant
            lo <= hi,
            (lo as int) * (lo as int) <= n as int,
            (n as int) < (hi as int + 1) * (hi as int + 1),
        decreases hi - lo,
    {
        let half: u64 = (hi - lo) / 2;
        let mid: u64 = hi - half;
        proof {
            assert((mid as int) * (mid as int) <= u128::MAX as int) by (nonlinear_arith)
                requires
                    0 <= mid <= u64::MAX,
            ;
        }
        let sq: u128 = (mid as u128) * (mid as u128);
        if sq <= n {
            lo = mid;
        } else {
            hi = mid - 1;
        }
    }
    proof {
        lemma_sqrt_floor_unique(n as int, lo as int);
    }
    lo
}

/// The rational half-wave sine: exact at 0, 90 and 180 degrees and within a
/// fraction of a percent elsewhere.  `a` is an angle in fixed-point degrees.
pub open spec fn sin_half_s(a: int) -> int {
    let t = a * (180 * (FX_ONE as int) - a);
    4 * t * (FX_ONE as int) / (40500 * (FX_ONE as int) * (FX_ONE as int) - t)
}

/// Sine of an angle in fixed-point degrees.
pub open spec fn sin_fx_s(d: int) -> int {
    let a = wrap_deg_s(d);
    if a < 180 * (FX_ONE as int) {
        sin_half_s(a)
    } else {
        -sin_half_s(a - 180 * (FX_ONE as int))
    }
}

/// Cosine of an angle in fixed-point degrees.
pub open spec fn cos_fx_s(d: int) -> int {
    sin_fx_s(d + 90 * (FX_ONE as int))
}

/// Sine on the first half-wave.
fn sin_half(a: i64) -> (r: i64)
    requires
        0 <= a <= 180 * FX_ONE,
    ensures
        r as int == sin_half_s(a as int),
        0 <= r <= FX_ONE,
{
    let b: i64 = 180 * FX_ONE - a;
    let au: u128 = a as u128;
    let bu: u128 = b as u128;
    proof {
        assert((au as int) * (bu as int) <= 8100 * (FX_ONE as int) * (FX_ONE as int))
            by (nonlinear_arith)
            requires
                0 <= au as int,
                0 <= bu as int,
                au as int + bu as int == 180 * (FX_ONE as int),
                FX_ONE == 1000000int,
        ;
    }
    let t: u128 = au * bu;
    let num: u128 = 4 * t * (FX_ONE as u128);
    let den: u128 = 40500 * (FX_ONE as u128) * (FX_ONE as u128) - t;
    let q: u128 = num / den;
    proof {
        assert(num <= (FX_ONE as int) * (den as int)) by (nonlinear_arith)
            requires
                t <= 8100 * (FX_ONE as u128) * (FX_ONE as u128),
                num == 4 * t * (FX_ONE as u128),
                den == 40500 * (FX_ONE as u128) * (FX_ONE as u128) - t,
        ;
        lemma_div_is_ordered(num as int, (FX_ONE as int) * (den as int), den as int);
        lemma_div_multiples_vanish(FX_ONE as int, den as int);
    }
    q as i64
}

/// Sine of an angle in fixed-point degrees.
pub fn sin_fx(d: i64) -> (r: i64)
    ensures
        r as int == sin_fx_s(d as int),
        -FX_ONE <= r <= FX_ONE,
{
    let w = wrap_deg(d);
    if w < 180 * FX_ONE {
        sin_half(w)
    } else {
        let s = sin_half(w - 180 * FX_ONE);
        -s
    }
}

/// Cosine of an angle in fixed-point degrees.
pub fn cos_fx(d: i64) -> (r: i64)
    ensures
        r as int == cos_fx_s(d as int),
        -FX_ONE <= r <= FX_ONE,
{
    let w = wrap_deg(d);
    let r = sin_fx(w + 90 * FX_ONE);
    proof {
        let m = FX_TURN as int;
        let c = 90 * (FX_ONE as int);
        lemma_small_mod(c as nat, m as nat);
        lemma_add_mod_noop(d as int, c, m);
        assert((w as int + c) % m == (d as int + c) % m);
    }
    r
}

} // verus!
