//! Saturating fixed-point arithmetic on `i64`.
//!
//! A fixed-point number holds the world value multiplied by [`SCALE`].
//! Every operation is total: results are truncated toward zero and clamped
//! into `[-FP_MAX, FP_MAX]`, so no input can overflow or panic. Each
//! executable operation returns exactly the value of its spec-level
//! counterpart, which is what the integrator's contracts are stated over.

use vstd::prelude::*;

verus! {

/// Fixed-point unit: an `i64` fixed-point number holds the world value times this.
pub const SCALE: i64 = 1_000_000_000_000;

/// Largest magnitude a fixed-point result may take (10_000 in world units).
pub const FP_MAX: i64 = 10_000_000_000_000_000;

/// Absolute value over mathematical integers.
pub open spec fn abs_val(v: int) -> int {
    if v < 0 {
        -v
    } else {
        v
    }
}

/// Clamp a mathematical integer into the representable fixed-point range.
pub open spec fn clamp_mag(v: int) -> int {
    if v > FP_MAX as int {
        FP_MAX as int
    } else if v < -(FP_MAX as int) {
        -(FP_MAX as int)
    } else {
        v
    }
}

/// Saturating fixed-point addition.
pub open spec fn add_fp(a: int, b: int) -> int {
    clamp_mag(a + b)
}

/// Saturating fixed-point subtraction.
pub open spec fn sub_fp(a: int, b: int) -> int {
    clamp_mag(a - b)
}

/// Saturating fixed-point negation.
pub open spec fn neg_fp(a: int) -> int {
    clamp_mag(-a)
}

/// Fixed-point product: magnitudes multiply, the result is rescaled by
/// `SCALE` truncating toward zero, and the sign is applied afterwards.
pub open spec fn mul_fp(a: int, b: int) -> int {
    let m = (abs_val(a) * abs_val(b)) / (SCALE as int);
    clamp_mag(
        if (a < 0) != (b < 0) {
            -m
        } else {
            m
        },
    )
}

/// Fixed-point quotient, truncating toward zero; division by zero yields zero.
pub open spec fn div_fp(a: int, b: int) -> int {
    if b == 0 {
        0
    } else {
        let m = (abs_val(a) * (SCALE as int)) / abs_val(b);
        clamp_mag(
            if (a < 0) != (b < 0) {
                -m
            } else {
                m
            },
        )
    }
}

/// `r` is the integer square root of `n`.
pub open spec fn is_isqrt(n: int, r: int) -> bool {
    &&& 0 <= r
    &&& r * r <= n
    &&& n < (r + 1) * (r + 1)
}

/// The integer square root of a non-negative integer.
pub closed spec fn sqrt_int(n: int) -> int {
    choose|r: int| #[trigger] is_isqrt(n, r)
}

/// Fixed-point square root: non-positive inputs yield zero.
pub open spec fn sqrt_fp(a: int) -> int {
    if a <= 0 {
        0
    } else {
        sqrt_int(a * (SCALE as int))
    }
}

/// Every non-negative integer has an integer square root.
proof fn lemma_isqrt_exists(n: int)
    requires
        n >= 0,
    ensures
        exists|r: int| #[trigger] is_isqrt(n, r),
    decreases n,
{
    if n == 0 {
        assert(is_isqrt(0, 0));
    } else {
        lemma_isqrt_exists(n - 1);
        let r = choose|r: int| #[trigger] is_isqrt(n - 1, r);
        if (r + 1) * (r + 1) <= n {
            assert((r + 1 + 1) * (r + 1 + 1) > n) by (nonlinear_arith)
                requires
                    n - 1 < (r + 1) * (r + 1),
                    r >= 0,
            ;
            assert(is_isqrt(n, r + 1));
        } else {
            assert(is_isqrt(n, r));
        }
    }
}

/// Integer square roots are unique.
proof fn lemma_isqrt_unique(n: int, a: int, b: int)
    requires
        is_isqrt(n, a),
        is_isqrt(n, b),
    ensures
        a == b,
{
    assert(a == b) by (nonlinear_arith)
        requires
            0 <= a,
            0 <= b,
            a * a <= n,
            n < (a + 1) * (a + 1),
            b * b <= n,
            n < (b + 1) * (b + 1),
    ;
}

/// `sqrt_int` satisfies the square-root characterization, and is pinned by it.
pub proof fn lemma_sqrt_int(n: int)
    requires
        n >= 0,
    ensures
        is_isqrt(n, sqrt_int(n)),
        forall|r: int| is_isqrt(n, r) ==> r == sqrt_int(n),
{
    lemma_isqrt_exists(n);
    let w = choose|r: int| #[trigger] is_isqrt(n, r);
    assert(is_isqrt(n, sqrt_int(n)));
    assert forall|r: int| is_isqrt(n, r) implies r == sqrt_int(n) by {
        lemma_isqrt_unique(n, r, sqrt_int(n));
    }
}

/// Magnitude of an `i64`, widened so that `i64::MIN` needs no special case.
fn abs_u(a: i64) -> (r: u128)
    ensures
        r as int == abs_val(a as int),
{
    if a < 0 {
        (-(a as i128)) as u128
    } else {
        a as u128
    }
}

/// Clamp a non-negative magnitude, then apply a sign.
fn clamp_signed(m: u128, neg: bool) -> (r: i64)
    ensures
        r as int == clamp_mag(
            if neg {
                -(m as int)
            } else {
                m as int
            },
        ),
{
    if m > FP_MAX as u128 {
        if neg {
            -FP_MAX
        } else {
            FP_MAX
        }
    } else {
        if neg {
            -(m as i64)
        } else {
            m as i64
        }
    }
}

/// Saturating fixed-point addition.
pub fn fp_add(a: i64, b: i64) -> (r: i64)
    ensures
        r as int == add_fp(a as int, b as int),
{
    let s: i128 = a as i128 + b as i128;
    if s > FP_MAX as i128 {
        FP_MAX
    } else if s < -(FP_MAX as i128) {
        -FP_MAX
    } else {
        s as i64
    }
}

/// Saturating fixed-point subtraction.
pub fn fp_sub(a: i64, b: i64) -> (r: i64)
    ensures
        r as int == sub_fp(a as int, b as int),
{
    let s: i128 = a as i128 - b as i128;
    if s > FP_MAX as i128 {
        FP_MAX
    } else if s < -(FP_MAX as i128) {
        -FP_MAX
    } else {
        s as i64
    }
}

/// Saturating fixed-point negation.
pub fn fp_neg(a: i64) -> (r: i64)
    ensures
        r as int == neg_fp(a as int),
{
    let s: i128 = -(a as i128);
    if s > FP_MAX as i128 {
        FP_MAX
    } else if s < -(FP_MAX as i128) {
        -FP_MAX
    } else {
        s as i64
    }
}

/// Fixed-point product, truncating toward zero and saturating.
pub fn fp_mul(a: i64, b: i64) -> (r: i64)
    ensures
        r as int == mul_fp(a as int, b as int),
{
    let neg = (a < 0) != (b < 0);
    let aa = abs_u(a);
    let ab = abs_u(b);
    assert(aa * ab <= u128::MAX) by (nonlinear_arith)
        requires
            aa <= 0x8000_0000_0000_0000u128,
            ab <= 0x8000_0000_0000_0000u128,
    ;
    let m = (aa * ab) / (SCALE as u128);
    clamp_signed(m, neg)
}

/// Fixed-point quotient, truncating toward zero; division by zero yields zero.
pub fn fp_div(a: i64, b: i64) -> (r: i64)
    ensures
        r as int == div_fp(a as int, b as int),
{
    if b == 0 {
        return 0;
    }
    let neg = (a < 0) != (b < 0);
    let aa = abs_u(a);
    let ab = abs_u(b);
    assert(aa * (SCALE as u128) <= u128::MAX) by (nonlinear_arith)
        requires
            aa <= 0x8000_0000_0000_0000u128,
    ;
    let m = (aa * (SCALE as u128)) / ab;
    clamp_signed(m, neg)
}

/// Integer square root by bisection.
fn isqrt_u128(n: u128) -> (r: u128)
    ensures
        is_isqrt(n as int, r as int),
{
    let mut lo: u128 = 0;
    let mut hi: u128 = 0x1_0000_0000_0000_0000u128;
    assert(hi * hi > n) by (nonlinear_arith)
        requires
            hi == 0x1_0000_0000_0000_0000u128,
    ;
    while lo + 1 < hi
        invariant
            lo < hi <= 0x1_0000_0000_0000_0000u128,
            lo * lo <= n,
            hi * hi > n,
        decreases hi - lo,
    {
        let mid = lo + (hi - lo) / 2;
        assert(lo < mid < hi);
        assert(mid * mid <= u128::MAX) by (nonlinear_arith)
            requires
                mid < 0x1_0000_0000_0000_0000u128,
        ;
        if mid * mid <= n {
            lo = mid;
        } else {
            hi = mid;
        }
    }
    lo
}

/// Fixed-point square root: non-positive inputs yield zero.
pub fn fp_sqrt(a: i64) -> (r: i64)
    ensures
        r as int == sqrt_fp(a as int),
{
    if a <= 0 {
        return 0;
    }
    assert((a as u128) * (SCALE as u128) <= u128::MAX) by (nonlinear_arith)
        requires
            a as u128 <= 0x8000_0000_0000_0000u128,
    ;
    let n = (a as u128) * (SCALE as u128);
    let s = isqrt_u128(n);
    proof {
        lemma_sqrt_int(n as int);
        assert(s as int == sqrt_int(n as int));
        assert(n as int <= 0x7fff_ffff_ffff_ffff * 1_000_000_000_000) by (nonlinear_arith)
            requires
                n as int == (a as int) * 1_000_000_000_000,
                a <= 0x7fff_ffff_ffff_ffffi64,
        ;
        assert(s < 0x8000_0000_0000_0000u128) by (nonlinear_arith)
            requires
                (s as int) * (s as int) <= n as int,
                n as int <= 0x7fff_ffff_ffff_ffff * 1_000_000_000_000,
        ;
    }
    s as i64
}

/// The fixed-point number standing for the whole number `n`.
pub open spec fn from_uint_fp(n: int) -> int {
    clamp_mag(n * (SCALE as int))
}

/// Convert a whole number of grid cells into a fixed-point value.
pub fn fp_from_uint(n: usize) -> (r: i64)
    ensures
        r as int == from_uint_fp(n as int),
{
    assert((n as u128) * (SCALE as u128) <= u128::MAX) by (nonlinear_arith)
        requires
            n as u128 <= 0xffff_ffff_ffff_ffffu128,
    ;
    let m = (n as u128) * (SCALE as u128);
    if m > FP_MAX as u128 {
        FP_MAX
    } else {
        m as i64
    }
}

/// A product with zero is zero.
pub proof fn lemma_mul_fp_zero(b: int)
    ensures
        mul_fp(0, b) == 0,
        mul_fp(b, 0) == 0,
{
    vstd::arithmetic::mul::lemma_mul_by_zero_is_zero(abs_val(b));
    vstd::arithmetic::div_mod::lemma_div_of0(SCALE as int);
}

/// A fixed-point square is never negative.
pub proof fn lemma_mul_fp_self_nonneg(a: int)
    ensures
        mul_fp(a, a) >= 0,
{
    vstd::arithmetic::mul::lemma_mul_nonnegative(abs_val(a), abs_val(a));
    vstd::arithmetic::div_mod::lemma_div_pos_is_pos(abs_val(a) * abs_val(a), SCALE as int);
}

} // verus!
