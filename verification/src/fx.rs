//! Saturating fixed-point scalar arithmetic.
//!
//! A scalar is an `i64` count of units of `1 / SCALE`. Every operation is
//! total: results that would leave the `i64` range saturate, division by
//! zero yields zero, and the square root of a negative number is zero.
//! Each operation's contract states its exact result over the mathematical
//! integers, so rounding is pinned down rather than approximated.

use vstd::prelude::*;

verus! {

/// Number of fixed-point units per one: 2^32.
pub const SCALE: i64 = 4294967296;

/// Saturation to the `i64` range.
pub open spec fn clip64(x: int) -> int {
    if x > i64::MAX as int {
        i64::MAX as int
    } else if x < i64::MIN as int {
        i64::MIN as int
    } else {
        x
    }
}

/// Absolute value.
pub open spec fn iabs(x: int) -> int {
    if x < 0 {
        -x
    } else {
        x
    }
}

/// Quotient rounded toward zero, for a non-zero divisor.
pub open spec fn quot_tz(x: int, d: int) -> int {
    let q = iabs(x) / iabs(d);
    if (x < 0) != (d < 0) {
        -q
    } else {
        q
    }
}

/// Fixed-point addition.
pub open spec fn fx_add(a: int, b: int) -> int {
    clip64(a + b)
}

/// Fixed-point subtraction.
pub open spec fn fx_sub(a: int, b: int) -> int {
    clip64(a - b)
}

/// Fixed-point negation.
pub open spec fn fx_neg(a: int) -> int {
    clip64(-a)
}

/// Fixed-point multiplication: the double-width product scaled back down,
/// rounded toward zero.
pub open spec fn fx_mul(a: int, b: int) -> int {
    clip64(quot_tz(a * b, SCALE as int))
}

/// Fixed-point division, rounded toward zero; division by zero yields zero.
pub open spec fn fx_div(a: int, b: int) -> int {
    if b == 0 {
        0
    } else {
        clip64(quot_tz(a * SCALE as int, b))
    }
}

/// Conversion of a whole number into fixed point.
pub open spec fn fx_from(n: int) -> int {
    clip64(n * SCALE as int)
}

/// The fixed-point value of the fraction `n / d`; zero when `d` is zero.
pub open spec fn fx_ratio(n: int, d: int) -> int {
    fx_div(fx_from(n), fx_from(d))
}

/// `r` is the integer square root of `n`.
pub open spec fn is_sqrt(n: int, r: int) -> bool {
    0 <= r && r * r <= n && n < (r + 1) * (r + 1)
}

/// The integer square root (floor); meaningful for `n >= 0`.
pub open spec fn sqrt_floor(n: int) -> int {
    choose|r: int| is_sqrt(n, r)
}

/// Fixed-point square root; non-positive inputs yield zero.
pub open spec fn fx_sqrt(a: int) -> int {
    if a <= 0 {
        0
    } else {
        sqrt_floor(a * SCALE as int)
    }
}

/// Bounds the product of two bounded factors.
pub proof fn lemma_mul_bound(a: int, b: int, m: int, n: int)
    requires
        -m <= a <= m,
        -n <= b <= n,
        0 <= m,
        0 <= n,
    ensures
        -(m * n) <= a * b <= m * n,
{
    assert(-(m * n) <= a * b <= m * n) by (nonlinear_arith)
        requires
            -m <= a <= m,
            -n <= b <= n,
            0 <= m,
            0 <= n,
    ;
}

/// Two integer square roots of the same number are equal.
pub proof fn lemma_sqrt_unique(n: int, a: int, b: int)
    requires
        is_sqrt(n, a),
        is_sqrt(n, b),
    ensures
        a == b,
{
    if a < b {
        assert((a + 1) * (a + 1) <= b * b) by (nonlinear_arith)
            requires
                0 <= a,
                0 <= b,
                a < b,
        ;
    }
    if b < a {
        assert((b + 1) * (b + 1) <= a * a) by (nonlinear_arith)
            requires
                0 <= a,
                0 <= b,
                b < a,
        ;
    }
}

/// A witness pins down `sqrt_floor`.
pub proof fn lemma_sqrt_floor(n: int, r: int)
    requires
        is_sqrt(n, r),
    ensures
        sqrt_floor(n) == r,
{
    assert(is_sqrt(n, sqrt_floor(n)));
    lemma_sqrt_unique(n, sqrt_floor(n), r);
}

/// A fixed-point scalar: `raw / SCALE`.
#[derive(Clone, Copy, PartialEq, Eq, Structural, Debug)]
pub struct Fx {
    pub raw: i64,
}

impl View for Fx {
    type V = int;

    open spec fn view(&self) -> int {
        self.raw as int
    }
}

/// Saturates a double-width intermediate back into `i64`.
fn clamp_i128(x: i128) -> (r: i64)
    ensures
        r as int == clip64(x as int),
{
    if x > i64::MAX as i128 {
        i64::MAX
    } else if x < i64::MIN as i128 {
        i64::MIN
    } else {
        x as i64
    }
}

/// Integer square root of a 128-bit number by bisection.
fn isqrt_u128(n: u128) -> (r: u64)
    ensures
        is_sqrt(n as int, r as int),
{
    let mut lo: u128 = 0;
    let mut hi: u128 = 18446744073709551616;
    assert(n < hi * hi) by (nonlinear_arith)
        requires
            n <= u128::MAX,
            hi == 18446744073709551616int,
    ;
    while lo + 1 < hi
        invariant
            lo < hi <= 18446744073709551616,
            lo * lo <= n,
            n < hi * hi,
        decreases hi - lo,
    {
        let mid = lo + (hi - lo) / 2;
        assert(mid * mid <= 0xffffffffffffffff * 0xffffffffffffffff) by (nonlinear_arith)
            requires
                0 <= mid <= 0xffffffffffffffffu128,
        ;
        if mid * mid <= n {
            lo = mid;
        } else {
            hi = mid;
        }
    }
    lo as u64
}

impl Fx {
    /// The zero scalar.
    pub fn zero() -> (r: Fx)
        ensures
            r@ == 0,
    {
        Fx { raw: 0 }
    }

    /// The scalar one.
    pub fn one() -> (r: Fx)
        ensures
            r@ == SCALE as int,
    {
        Fx { raw: SCALE }
    }

    /// A whole number as a scalar.
    pub fn from_int(n: i64) -> (r: Fx)
        ensures
            r@ == fx_from(n as int),
    {
        let p: i128 = (n as i128) * (SCALE as i128);
        Fx { raw: clamp_i128(p) }
    }

    /// A count as a scalar, saturating on counts too large to represent.
    pub fn from_usize(n: usize) -> (r: Fx)
        ensures
            r@ == fx_from(n as int),
    {
        let m: i64 = if n > 2147483648 {
            2147483648
        } else {
            n as i64
        };
        proof {
            if n > 2147483648 {
                assert(n as int * SCALE as int >= 2147483648int * SCALE as int)
                    by (nonlinear_arith)
                    requires
                        n as int > 2147483648,
                ;
            }
        }
        Fx::from_int(m)
    }

    /// The fraction `n / d` as a scalar; zero when `d` is zero.
    pub fn ratio(n: i64, d: i64) -> (r: Fx)
        ensures
            r@ == fx_ratio(n as int, d as int),
    {
        Fx::from_int(n).div_by(Fx::from_int(d))
    }

    /// Addition, saturating at the representable range.
    pub fn plus(self, o: Fx) -> (r: Fx)
        ensures
            r@ == fx_add(self@, o@),
    {
        let s: i128 = self.raw as i128 + o.raw as i128;
        Fx { raw: clamp_i128(s) }
    }

    /// Subtraction, saturating at the representable range.
    pub fn minus(self, o: Fx) -> (r: Fx)
        ensures
            r@ == fx_sub(self@, o@),
    {
        let s: i128 = self.raw as i128 - o.raw as i128;
        Fx { raw: clamp_i128(s) }
    }

    /// Negation, saturating at the representable range.
    pub fn neg(self) -> (r: Fx)
        ensures
            r@ == fx_neg(self@),
    {
        let s: i128 = -(self.raw as i128);
        Fx { raw: clamp_i128(s) }
    }

    /// Multiplication, rounded toward zero and saturating.
    pub fn times(self, o: Fx) -> (r: Fx)
        ensures
            r@ == fx_mul(self@, o@),
    {
        proof {
            lemma_mul_bound(self.raw as int, o.raw as int, i64::MAX as int + 1, i64::MAX as int + 1);
        }
        let p: i128 = (self.raw as i128) * (o.raw as i128);
        let negative = p < 0;
        let pa: u128 = if negative {
            (-p) as u128
        } else {
            p as u128
        };
        let q: u128 = pa / (SCALE as u128);
        assert(q == iabs(p as int) / iabs(SCALE as int));
        if negative {
            if q >= 9223372036854775808 {
                Fx { raw: i64::MIN }
            } else {
                Fx { raw: -(q as i64) }
            }
        } else {
            if q > 9223372036854775807 {
                Fx { raw: i64::MAX }
            } else {
                Fx { raw: q as i64 }
            }
        }
    }

    /// Division, rounded toward zero and saturating; division by zero
    /// yields zero.
    pub fn div_by(self, o: Fx) -> (r: Fx)
        ensures
            r@ == fx_div(self@, o@),
    {
        if o.raw == 0 {
            return Fx { raw: 0 };
        }
        proof {
            lemma_mul_bound(self.raw as int, SCALE as int, i64::MAX as int + 1, SCALE as int);
        }
        let num: i128 = (self.raw as i128) * (SCALE as i128);
        let negative = (num < 0) != (o.raw < 0);
        let na: u128 = if num < 0 {
            (-num) as u128
        } else {
            num as u128
        };
        let da: u128 = if o.raw < 0 {
            (-(o.raw as i128)) as u128
        } else {
            o.raw as u128
        };
        let q: u128 = na / da;
        assert(q == iabs(num as int) / iabs(o.raw as int));
        if negative {
            if q >= 9223372036854775808 {
                Fx { raw: i64::MIN }
            } else {
                Fx { raw: -(q as i64) }
            }
        } else {
            if q > 9223372036854775807 {
                Fx { raw: i64::MAX }
            } else {
                Fx { raw: q as i64 }
            }
        }
    }

    /// Square root, rounded down; non-positive inputs yield zero.
    pub fn sqrt(self) -> (r: Fx)
        ensures
            r@ == fx_sqrt(self@),
    {
        if self.raw <= 0 {
            return Fx { raw: 0 };
        }
        proof {
            lemma_mul_bound(self.raw as int, SCALE as int, i64::MAX as int, SCALE as int);
        }
        let n: u128 = (self.raw as u128) * (SCALE as u128);
        let r64: u64 = isqrt_u128(n);
        proof {
            lemma_sqrt_floor(n as int, r64 as int);
            if r64 as int > 0x1000000000000 {
                lemma_mul_bound(1, 1, r64 as int, r64 as int);
                assert((r64 as int) * (r64 as int) > 0x1000000000000 * 0x1000000000000)
                    by (nonlinear_arith)
                    requires
                        r64 as int > 0x1000000000000,
                ;
            }
        }
        Fx { raw: r64 as i64 }
    }

    /// Absolute value, saturating.
    pub fn abs(self) -> (r: Fx)
        ensures
            r@ == clip64(iabs(self@)),
    {
        if self.raw < 0 {
            self.neg()
        } else {
            self
        }
    }

    /// The smaller of two scalars.
    pub fn min(self, o: Fx) -> (r: Fx)
        ensures
            r@ == if self@ <= o@ {
                self@
            } else {
                o@
            },
    {
        if self.raw <= o.raw {
            self
        } else {
            o
        }
    }

    /// The larger of two scalars.
    pub fn max(self, o: Fx) -> (r: Fx)
        ensures
            r@ == if self@ >= o@ {
                self@
            } else {
                o@
            },
    {
        if self.raw >= o.raw {
            self
        } else {
            o
        }
    }

    /// Strict order on scalars.
    pub fn lt(self, o: Fx) -> (r: bool)
        ensures
            r == (self@ < o@),
    {
        self.raw < o.raw
    }

    /// Non-strict order on scalars.
    pub fn le(self, o: Fx) -> (r: bool)
        ensures
            r == (self@ <= o@),
    {
        self.raw <= o.raw
    }
}

} // verus!
