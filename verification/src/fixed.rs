//! Fixed-point numbers: every length, speed, angle and duration of the
//! simulation is a whole number of millionths.

use vstd::prelude::*;

verus! {

/// The number of millionths in one unit.
pub const ONE: i64 = 1_000_000;

/// `x`, brought into the range that a [`Fixed`] can hold.
pub open spec fn saturate(x: int) -> int {
    if x < i64::MIN {
        i64::MIN as int
    } else if x > i64::MAX {
        i64::MAX as int
    } else {
        x
    }
}

/// The quotient of `n` by `d`, rounded toward zero.
pub open spec fn div_toward_zero(n: int, d: int) -> int
    recommends
        d > 0,
{
    if n >= 0 {
        n / d
    } else {
        -((-n) / d)
    }
}

/// The fixed-point sum of `a` and `b`.
pub open spec fn sum_fx(a: int, b: int) -> int {
    saturate(a + b)
}

/// The fixed-point difference of `a` and `b`.
pub open spec fn diff_fx(a: int, b: int) -> int {
    saturate(a - b)
}

/// The fixed-point negation of `a`.
pub open spec fn neg_fx(a: int) -> int {
    saturate(-a)
}

/// The fixed-point product of `a` and `b`: the exact product of the two
/// values, rounded toward zero to a whole number of millionths.
pub open spec fn prod_fx(a: int, b: int) -> int {
    saturate(div_toward_zero(a * b, ONE as int))
}

/// The fixed-point quotient of `a` by `b`, rounded toward zero.
pub open spec fn quot_fx(a: int, b: int) -> int
    recommends
        b != 0,
{
    if b > 0 {
        saturate(div_toward_zero(a * ONE, b))
    } else {
        saturate(div_toward_zero(-(a * ONE), -b))
    }
}

/// `x`, held between `lo` and `hi`.
pub open spec fn clamp_fx(x: int, lo: int, hi: int) -> int {
    if x > lo {
        if x < hi {
            x
        } else {
            hi
        }
    } else {
        lo
    }
}

/// The largest natural number whose square is at most `n`.
pub open spec fn floor_sqrt(n: int) -> int {
    choose|r: int| is_floor_sqrt(r, n)
}

/// Whether `r` is the largest natural number whose square is at most `n`.
pub open spec fn is_floor_sqrt(r: int, n: int) -> bool {
    0 <= r && r * r <= n < (r + 1) * (r + 1)
}

/// Squaring keeps the order of natural numbers.
pub proof fn lemma_square_monotonic(a: int, b: int)
    requires
        0 <= a <= b,
    ensures
        a * a <= b * b,
{
    assert(a * a <= b * b) by (nonlinear_arith)
        requires
            0 <= a <= b,
    ;
}

/// At most one number is the floor of the square root of `n`.
pub proof fn lemma_floor_sqrt_unique(r: int, n: int)
    requires
        is_floor_sqrt(r, n),
    ensures
        floor_sqrt(n) == r,
{
    let q = floor_sqrt(n);
    assert(is_floor_sqrt(q, n));
    if q < r {
        lemma_square_monotonic(q + 1, r);
    } else if r < q {
        lemma_square_monotonic(r + 1, q);
    }
}

/// Every natural number has a floor of its square root.
pub proof fn lemma_floor_sqrt_exists(n: int)
    requires
        0 <= n,
    ensures
        is_floor_sqrt(floor_sqrt(n), n),
    decreases n,
{
    if n == 0 {
        assert(is_floor_sqrt(0, 0));
    } else {
        lemma_floor_sqrt_exists(n - 1);
        let r = floor_sqrt(n - 1);
        assert((r + 1) * (r + 1) == r * r + 2 * r + 1) by (nonlinear_arith);
        assert((r + 2) * (r + 2) == r * r + 4 * r + 4) by (nonlinear_arith);
        if (r + 1) * (r + 1) <= n {
            assert(is_floor_sqrt(r + 1, n));
        } else {
            assert(is_floor_sqrt(r, n));
        }
    }
}

/// The product of two 64-bit numbers fits in 127 bits.
pub proof fn lemma_product_fits(a: int, b: int)
    requires
        i64::MIN <= a <= i64::MAX,
        i64::MIN <= b <= i64::MAX,
    ensures
        -0x4000_0000_0000_0000_0000_0000_0000_0000 <= a * b
            <= 0x4000_0000_0000_0000_0000_0000_0000_0000,
{
    assert(-0x4000_0000_0000_0000_0000_0000_0000_0000 <= a * b
        <= 0x4000_0000_0000_0000_0000_0000_0000_0000) by (nonlinear_arith)
        requires
            -0x8000_0000_0000_0000 <= a <= 0x8000_0000_0000_0000,
            -0x8000_0000_0000_0000 <= b <= 0x8000_0000_0000_0000,
    ;
}

/// A fixed-point number: `micro` millionths.
#[derive(Clone, Copy, PartialEq, Eq, Debug, Structural)]
pub struct Fixed {
    pub micro: i64,
}

impl View for Fixed {
    type V = int;

    /// The number of millionths.
    open spec fn view(&self) -> int {
        self.micro as int
    }
}

/// `x` as a 64-bit number, saturated.
fn narrow(x: i128) -> (r: i64)
    ensures
        r == saturate(x as int),
{
    if x < i64::MIN as i128 {
        i64::MIN
    } else if x > i64::MAX as i128 {
        i64::MAX
    } else {
        x as i64
    }
}

/// The quotient of `n` by `d`, rounded toward zero.
fn divide_toward_zero(n: i128, d: i128) -> (q: i128)
    requires
        d > 0,
        n > i128::MIN,
    ensures
        q == div_toward_zero(n as int, d as int),
        n >= 0 ==> 0 <= q <= n,
        n < 0 ==> n <= q <= 0,
{
    if n >= 0 {
        let q: i128 = n / d;
        assert(0 <= (n as int) / (d as int) <= n) by (nonlinear_arith)
            requires
                n >= 0,
                d > 0,
        ;
        q
    } else {
        let m: i128 = -n;
        let q: i128 = m / d;
        assert(0 <= (m as int) / (d as int) <= m) by (nonlinear_arith)
            requires
                m >= 0,
                d > 0,
        ;
        -q
    }
}

impl Fixed {
    /// The number of `micro` millionths.
    pub fn from_micro(micro: i64) -> (r: Fixed)
        ensures
            r@ == micro,
    {
        Fixed { micro }
    }

    /// The whole number `units`.
    pub fn from_int(units: i32) -> (r: Fixed)
        ensures
            r@ == units * ONE,
    {
        assert(ONE == 1_000_000);
        Fixed { micro: (units as i64) * 1_000_000 }
    }

    /// Zero.
    pub fn zero() -> (r: Fixed)
        ensures
            r@ == 0,
    {
        Fixed { micro: 0 }
    }

    /// The number of millionths.
    pub fn to_micro(self) -> (m: i64)
        ensures
            m == self@,
    {
        self.micro
    }

    /// The saturating sum.
    pub fn plus(self, rhs: Fixed) -> (r: Fixed)
        ensures
            r@ == sum_fx(self@, rhs@),
    {
        Fixed { micro: narrow(self.micro as i128 + rhs.micro as i128) }
    }

    /// The saturating difference.
    pub fn minus(self, rhs: Fixed) -> (r: Fixed)
        ensures
            r@ == diff_fx(self@, rhs@),
    {
        Fixed { micro: narrow(self.micro as i128 - rhs.micro as i128) }
    }

    /// The saturating negation.
    pub fn negated(self) -> (r: Fixed)
        ensures
            r@ == neg_fx(self@),
    {
        Fixed { micro: narrow(-(self.micro as i128)) }
    }

    /// The saturating product, rounded toward zero.
    pub fn times(self, rhs: Fixed) -> (r: Fixed)
        ensures
            r@ == prod_fx(self@, rhs@),
    {
        proof {
            lemma_product_fits(self@, rhs@);
        }
        let p: i128 = (self.micro as i128) * (rhs.micro as i128);
        Fixed { micro: narrow(divide_toward_zero(p, ONE as i128)) }
    }

    /// The saturating quotient, rounded toward zero.
    pub fn over(self, rhs: Fixed) -> (r: Fixed)
        requires
            rhs@ != 0,
        ensures
            r@ == quot_fx(self@, rhs@),
    {
        assert(ONE == 1_000_000);
        let n: i128 = (self.micro as i128) * 1_000_000;
        if rhs.micro > 0 {
            Fixed { micro: narrow(divide_toward_zero(n, rhs.micro as i128)) }
        } else {
            Fixed { micro: narrow(divide_toward_zero(-n, -(rhs.micro as i128))) }
        }
    }

    /// This number, held between `lo` and `hi`.
    pub fn clamped(self, lo: Fixed, hi: Fixed) -> (r: Fixed)
        ensures
            r@ == clamp_fx(self@, lo@, hi@),
    {
        if self.micro > lo.micro {
            if self.micro < hi.micro {
                self
            } else {
                hi
            }
        } else {
            lo
        }
    }
}

/// The largest number whose square is at most `n`.
pub fn integer_sqrt(n: u128) -> (r: u64)
    ensures
        r == floor_sqrt(n as int),
        is_floor_sqrt(r as int, n as int),
{
    let mut lo: u128 = 0;
    let mut hi: u128 = 0x1_0000_0000_0000_0000;
    assert(n < hi * hi) by (nonlinear_arith)
        requires
            hi == 0x1_0000_0000_0000_0000,
            n < 0x1_0000_0000_0000_0000_0000_0000_0000_0000,
    ;
    while hi - lo > 1
        invariant
            lo < hi <= 0x1_0000_0000_0000_0000,
            lo * lo <= n < hi * hi,
        decreases hi - lo,
    {
        let mid: u128 = lo + (hi - lo) / 2;
        assert(mid * mid < 0x1_0000_0000_0000_0000_0000_0000_0000_0000) by (nonlinear_arith)
            requires
                0 <= mid < 0x1_0000_0000_0000_0000,
        ;
        if mid * mid <= n {
            lo = mid;
        } else {
            hi = mid;
        }
    }
    proof {
        assert(hi == lo + 1);
        lemma_floor_sqrt_unique(lo as int, n as int);
    }
    lo as u64
}

} // verus!
