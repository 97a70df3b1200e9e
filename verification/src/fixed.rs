//! Saturating fixed-point scalars.
//!
//! All radiometric quantities (densities, throughputs, cosines, distances) are
//! carried as multiples of `1 / 65536`, stored in an `i64`. Every operation is
//! total: results that would leave the representable range saturate, and a
//! division by zero yields zero, which realises the policy that near-zero
//! denominators are clamped to zero rather than producing non-finite values.

use vstd::prelude::*;

verus! {

/// Number of fixed-point steps per unit: values represent `v / 65536`.
pub const FX_SCALE: i64 = 65536;

/// A fixed-point scalar holding `v / 65536`.
#[derive(Clone, Copy, PartialEq, Eq, Structural, Debug)]
pub struct Fixed {
    pub v: i64,
}

/// Clamp a mathematical integer into the `i64` range.
pub open spec fn sat64(x: int) -> i64 {
    if x > i64::MAX {
        i64::MAX
    } else if x < i64::MIN {
        i64::MIN
    } else {
        x as i64
    }
}

/// Absolute value of a mathematical integer.
pub open spec fn iabs(x: int) -> int {
    if x >= 0 {
        x
    } else {
        -x
    }
}

/// Division truncating toward zero, the rounding used by all scalar ops.
pub open spec fn tdiv(a: int, b: int) -> int {
    if (a >= 0) == (b >= 0) {
        iabs(a) / iabs(b)
    } else {
        -(iabs(a) / iabs(b))
    }
}

/// Fixed-point addition: `a + b`, saturated.
pub open spec fn fx_add(a: i64, b: i64) -> i64 {
    sat64(a + b)
}

/// Fixed-point subtraction: `a - b`, saturated.
pub open spec fn fx_sub(a: i64, b: i64) -> i64 {
    sat64(a - b)
}

/// Fixed-point negation, saturated.
pub open spec fn fx_neg(a: i64) -> i64 {
    sat64(-a)
}

/// Fixed-point absolute value, saturated.
pub open spec fn fx_abs(a: i64) -> i64 {
    sat64(iabs(a as int))
}

/// Fixed-point product: `a * b / 65536`, truncated toward zero and saturated.
#[verifier::opaque]
pub open spec fn fx_mul(a: i64, b: i64) -> i64 {
    sat64(tdiv(a * b, FX_SCALE as int))
}

/// Fixed-point quotient: `a * 65536 / b`, truncated toward zero and
/// saturated; a zero divisor yields zero.
#[verifier::opaque]
pub open spec fn fx_div(a: i64, b: i64) -> i64 {
    if b == 0 {
        0
    } else {
        sat64(tdiv(a * (FX_SCALE as int), b as int))
    }
}

/// Clamp a scalar to the non-negative range.
pub open spec fn fx_max0(a: i64) -> i64 {
    if a >= 0 {
        a
    } else {
        0
    }
}

/// `r` is the floor of the square root of `n`.
pub open spec fn is_floor_sqrt(n: int, r: int) -> bool {
    0 <= r && r * r <= n && n < (r + 1) * (r + 1)
}

/// The floor of the square root of a non-negative integer.
pub open spec fn floor_sqrt(n: int) -> int {
    choose|r: int| #[trigger] is_floor_sqrt(n, r)
}

/// Fixed-point square root: the floor square root of `a * 65536`, so that the
/// result is again a scalar in units of `1 / 65536`; non-positive inputs give
/// zero.
#[verifier::opaque]
pub open spec fn fx_sqrt(a: i64) -> i64 {
    if a <= 0 {
        0
    } else {
        sat64(floor_sqrt(a * (FX_SCALE as int)))
    }
}

/// For every non-negative integer a floor square root exists.
pub proof fn lemma_floor_sqrt_exists(n: int)
    requires
        0 <= n,
    ensures
        is_floor_sqrt(n, floor_sqrt(n)),
    decreases n,
{
    if n == 0 {
        assert(is_floor_sqrt(0, 0));
    } else {
        lemma_floor_sqrt_exists(n - 1);
        let r = floor_sqrt(n - 1);
        if (r + 1) * (r + 1) <= n {
            assert(n - 1 < (r + 1) * (r + 1));
            assert(is_floor_sqrt(n, r + 1)) by (nonlinear_arith)
                requires
                    0 <= r,
                    (r + 1) * (r + 1) <= n,
                    n <= (r + 1) * (r + 1),
            ;
        } else {
            assert(is_floor_sqrt(n, r));
        }
        assert(exists|w: int| #[trigger] is_floor_sqrt(n, w));
    }
}

/// The floor square root is unique.
pub proof fn lemma_floor_sqrt_unique(n: int, r1: int, r2: int)
    requires
        is_floor_sqrt(n, r1),
        is_floor_sqrt(n, r2),
    ensures
        r1 == r2,
{
    assert(r1 == r2) by (nonlinear_arith)
        requires
            0 <= r1 && r1 * r1 <= n && n < (r1 + 1) * (r1 + 1),
            0 <= r2 && r2 * r2 <= n && n < (r2 + 1) * (r2 + 1),
    ;
}

/// Truncating division of non-negative operands agrees with plain division.
proof fn lemma_tdiv_nonneg(a: int, b: int)
    requires
        0 <= a,
        0 < b,
    ensures
        tdiv(a, b) == a / b,
        0 <= tdiv(a, b),
{
    assert(0 <= a / b) by (nonlinear_arith)
        requires
            0 <= a,
            0 < b,
    ;
}

/// A product of non-negative scalars is non-negative.
pub proof fn lemma_fx_mul_nonneg(a: i64, b: i64)
    requires
        0 <= a,
        0 <= b,
    ensures
        0 <= fx_mul(a, b),
{
    reveal(fx_mul);
    assert(0 <= a * b) by (nonlinear_arith)
        requires
            0 <= a,
            0 <= b,
    ;
    lemma_tdiv_nonneg(a * b, FX_SCALE as int);
}

/// A quotient of non-negative scalars is non-negative.
pub proof fn lemma_fx_div_nonneg(a: i64, b: i64)
    requires
        0 <= a,
        0 <= b,
    ensures
        0 <= fx_div(a, b),
{
    reveal(fx_div);
    if b != 0 {
        assert(0 <= a * (FX_SCALE as int)) by (nonlinear_arith)
            requires
                0 <= a,
        ;
        lemma_tdiv_nonneg(a * (FX_SCALE as int), b as int);
    }
}

/// A square is non-negative.
pub proof fn lemma_fx_mul_self_nonneg(a: i64)
    ensures
        0 <= fx_mul(a, a),
{
    reveal(fx_mul);
    assert(0 <= a * a) by (nonlinear_arith);
    lemma_tdiv_nonneg(a * a, FX_SCALE as int);
}

/// Zero is absorbing for the fixed-point product.
pub proof fn lemma_fx_mul_zero(b: i64)
    ensures
        fx_mul(0, b) == 0,
        fx_mul(b, 0) == 0,
{
    reveal(fx_mul);
}

impl Fixed {
    /// The scalar zero.
    pub fn zero() -> (r: Fixed)
        ensures
            r.v == 0,
    {
        Fixed { v: 0 }
    }

    /// The scalar one.
    pub fn one() -> (r: Fixed)
        ensures
            r.v == FX_SCALE,
    {
        Fixed { v: FX_SCALE }
    }

    /// The greatest representable scalar, standing in for an unbounded ray
    /// extent.
    pub fn greatest() -> (r: Fixed)
        ensures
            r.v == i64::MAX,
    {
        Fixed { v: i64::MAX }
    }

    /// Embed a machine integer as the scalar of that whole value.
    pub fn of_i64(n: i64) -> (r: Fixed)
        ensures
            r.v == sat64(n * (FX_SCALE as int)),
    {
        if n > 140737488355327i64 {
            proof {
                assert(n * (FX_SCALE as int) > i64::MAX) by (nonlinear_arith)
                    requires
                        n > 140737488355327i64,
                        FX_SCALE == 65536,
                ;
            }
            Fixed { v: i64::MAX }
        } else if n < -140737488355328i64 {
            proof {
                assert(n * (FX_SCALE as int) < i64::MIN) by (nonlinear_arith)
                    requires
                        n < -140737488355328i64,
                        FX_SCALE == 65536,
                ;
            }
            Fixed { v: i64::MIN }
        } else {
            proof {
                assert(n * (FX_SCALE as int) <= i64::MAX && i64::MIN <= n * (FX_SCALE as int))
                    by (nonlinear_arith)
                    requires
                        n <= 140737488355327i64,
                        n >= -140737488355328i64,
                        FX_SCALE == 65536,
                ;
            }
            Fixed { v: n * FX_SCALE }
        }
    }

    /// Embed a count as a scalar.
    pub fn of_usize(n: usize) -> (r: Fixed)
        ensures
            r.v == sat64(n * (FX_SCALE as int)),
    {
        let m: u64 = n as u64;
        if m > 140737488355327u64 {
            proof {
                assert(n * (FX_SCALE as int) > i64::MAX) by (nonlinear_arith)
                    requires
                        n > 140737488355327u64,
                        FX_SCALE == 65536,
                ;
            }
            Fixed { v: i64::MAX }
        } else {
            proof {
                assert(0 <= n * (FX_SCALE as int) && n * (FX_SCALE as int) <= i64::MAX)
                    by (nonlinear_arith)
                    requires
                        0 <= n,
                        n <= 140737488355327u64,
                        FX_SCALE == 65536,
                ;
            }
            Fixed { v: (n as i64) * FX_SCALE }
        }
    }

    /// Saturating addition.
    pub fn add(self, o: Fixed) -> (r: Fixed)
        ensures
            r.v == fx_add(self.v, o.v),
    {
        let s: i128 = self.v as i128 + o.v as i128;
        Fixed { v: clamp64(s) }
    }

    /// Saturating subtraction.
    pub fn sub(self, o: Fixed) -> (r: Fixed)
        ensures
            r.v == fx_sub(self.v, o.v),
    {
        let s: i128 = self.v as i128 - o.v as i128;
        Fixed { v: clamp64(s) }
    }

    /// Saturating negation.
    pub fn neg(self) -> (r: Fixed)
        ensures
            r.v == fx_neg(self.v),
    {
        let s: i128 = -(self.v as i128);
        Fixed { v: clamp64(s) }
    }

    /// Saturating absolute value.
    pub fn abs(self) -> (r: Fixed)
        ensures
            r.v == fx_abs(self.v),
    {
        if self.v >= 0 {
            self
        } else {
            let s: i128 = -(self.v as i128);
            Fixed { v: clamp64(s) }
        }
    }

    /// Fixed-point product, truncated toward zero and saturated.
    pub fn mul(self, o: Fixed) -> (r: Fixed)
        ensures
            r.v == fx_mul(self.v, o.v),
    {
        proof {
            reveal(fx_mul);
            assert(iabs((self.v as int) * (o.v as int)) < i128::MAX) by (nonlinear_arith)
                requires
                    i64::MIN <= self.v <= i64::MAX,
                    i64::MIN <= o.v <= i64::MAX,
            ;
        }
        let p: i128 = (self.v as i128) * (o.v as i128);
        let q: i128 = div_trunc(p, FX_SCALE as i128);
        Fixed { v: clamp64(q) }
    }

    /// Fixed-point quotient, truncated toward zero and saturated; a zero
    /// divisor yields zero.
    pub fn div(self, o: Fixed) -> (r: Fixed)
        ensures
            r.v == fx_div(self.v, o.v),
    {
        proof {
            reveal(fx_div);
        }
        if o.v == 0 {
            Fixed { v: 0 }
        } else {
            proof {
                assert(iabs((self.v as int) * (FX_SCALE as int)) < i128::MAX)
                    by (nonlinear_arith)
                    requires
                        i64::MIN <= self.v <= i64::MAX,
                        FX_SCALE == 65536,
                ;
            }
            let p: i128 = (self.v as i128) * (FX_SCALE as i128);
            let q: i128 = div_trunc(p, o.v as i128);
            Fixed { v: clamp64(q) }
        }
    }

    /// Fixed-point square root; non-positive inputs give zero.
    pub fn sqrt(self) -> (r: Fixed)
        ensures
            r.v == fx_sqrt(self.v),
            0 <= r.v,
    {
        proof {
            reveal(fx_sqrt);
        }
        if self.v <= 0 {
            return Fixed { v: 0 };
        }
        let n: u128 = (self.v as u128) * (FX_SCALE as u128);
        proof {
            assert(n < 0x10000000000u128 * 0x10000000000u128) by (nonlinear_arith)
                requires
                    n == self.v * (FX_SCALE as int),
                    0 < self.v <= i64::MAX,
                    FX_SCALE == 65536,
            ;
        }
        let mut lo: u128 = 0;
        let mut hi: u128 = 0x10000000000u128;
        while lo + 1 < hi
            invariant
                lo < hi,
                hi <= 0x10000000000u128,
                lo * lo <= n,
                n < hi * hi,
            decreases hi - lo,
        {
            let mid: u128 = lo + (hi - lo) / 2;
            proof {
                assert(mid * mid <= 0x10000000000u128 * 0x10000000000u128)
                    by (nonlinear_arith)
                    requires
                        0 <= mid <= 0x10000000000u128,
                ;
            }
            if mid * mid <= n {
                lo = mid;
            } else {
                hi = mid;
            }
        }
        proof {
            assert(is_floor_sqrt(n as int, lo as int));
            lemma_floor_sqrt_exists(n as int);
            lemma_floor_sqrt_unique(n as int, lo as int, floor_sqrt(n as int));
        }
        Fixed { v: lo as i64 }
    }

    /// Clamp to the non-negative range.
    pub fn max0(self) -> (r: Fixed)
        ensures
            r.v == fx_max0(self.v),
            r.v >= 0,
    {
        if self.v >= 0 {
            self
        } else {
            Fixed { v: 0 }
        }
    }
}

/// Saturate an `i128` into the `i64` range.
fn clamp64(x: i128) -> (r: i64)
    ensures
        r == sat64(x as int),
{
    if x > i64::MAX as i128 {
        i64::MAX
    } else if x < i64::MIN as i128 {
        i64::MIN
    } else {
        x as i64
    }
}

/// Division of `i128` values truncating toward zero, computed on magnitudes.
fn div_trunc(a: i128, b: i128) -> (r: i128)
    requires
        b != 0,
        a != i128::MIN,
        b != i128::MIN,
    ensures
        r == tdiv(a as int, b as int),
{
    let am: u128 = if a >= 0 {
        a as u128
    } else {
        (-a) as u128
    };
    let bm: u128 = if b >= 0 {
        b as u128
    } else {
        (-b) as u128
    };
    let qm: u128 = am / bm;
    proof {
        assert(am == iabs(a as int));
        assert(bm == iabs(b as int));
        assert(qm <= am) by (nonlinear_arith)
            requires
                qm == am / bm,
                bm >= 1,
        ;
    }
    if (a >= 0) == (b >= 0) {
        qm as i128
    } else {
        -(qm as i128)
    }
}

} // verus!
