//! The exact fixed-point scalar on which the whole library computes.
//!
//! A [`Num`] stores a signed count of `1e-9` units, so `Num::new(1_500_000_000)`
//! is one and a half.  Every operation is total: results are saturated
//! ("clipped") into the representable range, and division truncates toward
//! zero, exactly as the specification functions below state.  The view of a
//! `Num` is its count of units as a mathematical integer.
//!
//! A [`Residual`] is one entry of a residual vector: either a finite scalar or
//! the invalid marker that stands for a measurement the model could not
//! reproduce at all.
use vstd::prelude::*;
use vstd::arithmetic::div_mod::{
    lemma_div_pos_is_pos, lemma_div_nonincreasing, lemma_div_by_multiple, lemma_div_of0,
};
use vstd::arithmetic::power2::pow2;

verus! {

/// Number of fixed-point units in one: values have a resolution of `1e-9`.
pub const SCALE: i128 = 1_000_000_000;

/// Largest magnitude of units a [`Num`] can hold; arithmetic saturates here.
pub const M_MAX: i128 = 10_000_000_000_000_000_000;

/// Saturation of an unbounded result into the representable range.
pub open spec fn clip(x: int) -> int {
    if x > M_MAX as int {
        M_MAX as int
    } else if x < -(M_MAX as int) {
        -(M_MAX as int)
    } else {
        x
    }
}

/// Magnitude of an integer.
pub open spec fn iabs(a: int) -> int {
    if a >= 0 {
        a
    } else {
        -a
    }
}

/// Division truncating toward zero, as the hardware performs it: the
/// magnitudes are divided and the quotient carries the sign of the exact
/// quotient.
pub open spec fn tdiv(a: int, b: int) -> int {
    if (a < 0) != (b < 0) {
        -(iabs(a) / iabs(b))
    } else {
        iabs(a) / iabs(b)
    }
}

/// What addition of two unit counts yields.
pub open spec fn q_add(a: int, b: int) -> int {
    clip(a + b)
}

/// What subtraction of two unit counts yields.
pub open spec fn q_sub(a: int, b: int) -> int {
    clip(a - b)
}

/// What multiplication of two unit counts yields.
pub open spec fn q_mul(a: int, b: int) -> int {
    clip(tdiv(a * b, SCALE as int))
}

/// What division of two unit counts yields.  A zero divisor saturates with
/// the dividend's sign, standing in for the infinities of inexact arithmetic.
pub open spec fn q_div(a: int, b: int) -> int {
    if b == 0 {
        if a >= 0 {
            M_MAX as int
        } else {
            -(M_MAX as int)
        }
    } else {
        clip(tdiv(a * (SCALE as int), b))
    }
}

/// What dividing a unit count by a plain positive integer yields.
pub open spec fn q_div_int(a: int, n: int) -> int {
    clip(tdiv(a, n))
}

/// The integer square root: the greatest `r` with `r * r <= n`.
pub open spec fn isqrt_rec(n: nat) -> nat
    decreases n,
{
    if n == 0 {
        0
    } else {
        let r = isqrt_rec((n - 1) as nat);
        if (r + 1) * (r + 1) <= n {
            r + 1
        } else {
            r
        }
    }
}

/// What the square root of a nonnegative unit count yields: the square root
/// of the represented value, rounded down to the resolution.
pub open spec fn q_sqrt(a: int) -> int {
    isqrt_rec((a * (SCALE as int)) as nat) as int
}

pub proof fn lemma_isqrt(n: nat)
    ensures
        isqrt_rec(n) * isqrt_rec(n) <= n,
        n < (isqrt_rec(n) + 1) * (isqrt_rec(n) + 1),
    decreases n,
{
    if n == 0 {
        let s = isqrt_rec(n);
        assert(s == 0);
        assert(s * s == 0 && (s + 1) * (s + 1) == 1) by (nonlinear_arith)
            requires
                s == 0,
        ;
    } else {
        lemma_isqrt((n - 1) as nat);
        let r = isqrt_rec((n - 1) as nat);
        assert(r * r <= n - 1);
        assert(n - 1 < (r + 1) * (r + 1));
        if (r + 1) * (r + 1) <= n {
            assert(isqrt_rec(n) == r + 1);
            assert(n == (r + 1) * (r + 1));
            assert((r + 1) * (r + 1) < (r + 2) * (r + 2)) by (nonlinear_arith);
            assert(n < (isqrt_rec(n) + 1) * (isqrt_rec(n) + 1));
        } else {
            assert(isqrt_rec(n) == r);
            assert(r * r <= n);
            assert(n < (r + 1) * (r + 1));
        }
    }
}

pub proof fn lemma_isqrt_unique(n: nat, r: nat)
    requires
        r * r <= n,
        n < (r + 1) * (r + 1),
    ensures
        r == isqrt_rec(n),
{
    lemma_isqrt(n);
    let s = isqrt_rec(n);
    if r < s {
        assert((r + 1) * (r + 1) <= s * s) by (nonlinear_arith)
            requires
                r + 1 <= s,
        ;
        assert(false);
    } else if s < r {
        assert((s + 1) * (s + 1) <= r * r) by (nonlinear_arith)
            requires
                s + 1 <= r,
        ;
        assert(false);
    }
}

/// Truncating division by a positive divisor keeps the sign of the dividend
/// and never grows the magnitude.
proof fn lemma_tdiv_abs_le(a: int, b: int)
    requires
        b >= 1,
    ensures
        iabs(tdiv(a, b)) <= iabs(a),
        a >= 0 ==> tdiv(a, b) >= 0,
        a < 0 ==> tdiv(a, b) <= 0,
{
    if a >= 0 {
        lemma_div_pos_is_pos(a, b);
        lemma_div_nonincreasing(a, b);
    } else {
        lemma_div_pos_is_pos(-a, b);
        lemma_div_nonincreasing(-a, b);
    }
}

/// Multiplying by a small whole number held as a unit count is exact: no
/// truncation can occur, only the final saturation.
pub proof fn lemma_mul_small_int(c: int, x: int)
    requires
        0 <= c <= 1000,
    ensures
        q_mul(c * (SCALE as int), x) == clip(c * x),
{
    if c == 0 {
        assert((c * (SCALE as int)) * x == 0) by (nonlinear_arith)
            requires
                c == 0,
        ;
    } else {
        let p = (c * (SCALE as int)) * x;
        assert(iabs(p) == (c * iabs(x)) * (SCALE as int) && ((p < 0 <==> x < 0) && (p > 0 <==> x
            > 0))) by (nonlinear_arith)
            requires
                1 <= c <= 1000,
                p == (c * (SCALE as int)) * x,
        ;
        lemma_div_by_multiple(c * iabs(x), SCALE as int);
        assert(iabs(p) / (SCALE as int) == c * iabs(x));
        assert(tdiv(p, SCALE as int) == c * x) by (nonlinear_arith)
            requires
                1 <= c,
                iabs(p) / (SCALE as int) == c * iabs(x),
                p < 0 <==> x < 0,
                p > 0 <==> x > 0,
                tdiv(p, SCALE as int) == if (p < 0) != ((SCALE as int) < 0) {
                    -(iabs(p) / iabs(SCALE as int))
                } else {
                    iabs(p) / iabs(SCALE as int)
                },
                iabs(p) == if p >= 0 {
                    p
                } else {
                    -p
                },
                iabs(x) == if x >= 0 {
                    x
                } else {
                    -x
                },
                iabs(SCALE as int) == SCALE as int,
        ;
    }
}

/// A fixed-point square is never negative.
pub proof fn lemma_square_nonneg(a: int)
    ensures
        q_mul(a, a) >= 0,
{
    assert(a * a >= 0) by (nonlinear_arith);
    lemma_div_pos_is_pos(a * a, SCALE as int);
}

/// Zero annihilates the fixed-point operations exactly.
pub proof fn lemma_zero_ops(a: int, b: int)
    requires
        b != 0,
    ensures
        q_mul(a, 0) == 0,
        q_mul(0, a) == 0,
        q_div(0, b) == 0,
        q_sqrt(0) == 0,
{
    lemma_div_of0(SCALE as int);
    lemma_div_of0(iabs(b));
    assert(a * 0 == 0);
    assert(0 * a == 0);
    assert(isqrt_rec(0nat) == 0);
}

/// The fixed-point scalar: a signed count of `1e-9` units.
#[derive(Clone, Copy, Debug, PartialEq, Eq, Structural)]
pub struct Num {
    m: i128,
}

impl View for Num {
    type V = int;

    closed spec fn view(&self) -> int {
        self.m as int
    }
}

/// Saturate a raw unit count into the representable range.
fn clamp_units(x: i128) -> (r: i128)
    ensures
        r as int == clip(x as int),
{
    if x > M_MAX {
        M_MAX
    } else if x < -M_MAX {
        -M_MAX
    } else {
        x
    }
}

impl Num {
    #[verifier::type_invariant]
    spec fn wf(self) -> bool {
        -(M_MAX as int) <= self.m as int <= M_MAX as int
    }

    /// The value counting `m` units of `1e-9`, saturated into range.
    pub fn new(m: i128) -> (r: Num)
        ensures
            r@ == clip(m as int),
    {
        Num { m: clamp_units(m) }
    }

    /// The integer `i` as a value, saturated into range.
    pub fn from_int(i: i64) -> (r: Num)
        ensures
            r@ == clip(i * (SCALE as int)),
    {
        proof {
            assert(-(10_000_000_000_000_000_000_000_000_000int) <= (i as int) * (SCALE as int)
                <= 10_000_000_000_000_000_000_000_000_000int) by (nonlinear_arith)
                requires
                    -(9_223_372_036_854_775_808int) <= i as int <= 9_223_372_036_854_775_807int,
            ;
        }
        let m: i128 = (i as i128) * SCALE;
        Num { m: clamp_units(m) }
    }

    /// Zero.
    pub fn zero() -> (r: Num)
        ensures
            r@ == 0,
    {
        Num { m: 0 }
    }

    /// One.
    pub fn one() -> (r: Num)
        ensures
            r@ == SCALE as int,
    {
        Num { m: SCALE }
    }

    /// The raw count of `1e-9` units.
    pub fn raw(self) -> (r: i128)
        ensures
            r as int == self@,
    {
        self.m
    }

    pub fn add(self, other: Num) -> (r: Num)
        ensures
            r@ == q_add(self@, other@),
    {
        proof {
            use_type_invariant(&self);
            use_type_invariant(&other);
        }
        let s: i128 = self.m + other.m;
        Num { m: clamp_units(s) }
    }

    pub fn sub(self, other: Num) -> (r: Num)
        ensures
            r@ == q_sub(self@, other@),
    {
        proof {
            use_type_invariant(&self);
            use_type_invariant(&other);
        }
        let s: i128 = self.m - other.m;
        Num { m: clamp_units(s) }
    }

    pub fn neg(self) -> (r: Num)
        ensures
            r@ == -self@,
    {
        proof {
            use_type_invariant(&self);
        }
        Num { m: -self.m }
    }

    pub fn abs(self) -> (r: Num)
        ensures
            r@ == iabs(self@),
    {
        proof {
            use_type_invariant(&self);
        }
        if self.m < 0 {
            Num { m: -self.m }
        } else {
            self
        }
    }

    pub fn mul(self, other: Num) -> (r: Num)
        ensures
            r@ == q_mul(self@, other@),
    {
        proof {
            use_type_invariant(&self);
            use_type_invariant(&other);
            assert(-(100_000_000_000_000_000_000_000_000_000_000_000_000int) <= (self.m as int)
                * (other.m as int) <= 100_000_000_000_000_000_000_000_000_000_000_000_000int)
                by (nonlinear_arith)
                requires
                    -(M_MAX as int) <= self.m as int <= M_MAX as int,
                    -(M_MAX as int) <= other.m as int <= M_MAX as int,
            ;
        }
        let p: i128 = self.m * other.m;
        proof {
            lemma_tdiv_abs_le(p as int, SCALE as int);
        }
        let q: i128 = p / SCALE;
        Num { m: clamp_units(q) }
    }

    pub fn div(self, other: Num) -> (r: Num)
        ensures
            r@ == q_div(self@, other@),
    {
        proof {
            use_type_invariant(&self);
            use_type_invariant(&other);
        }
        if other.m == 0 {
            if self.m >= 0 {
                Num { m: M_MAX }
            } else {
                Num { m: -M_MAX }
            }
        } else {
            proof {
                assert(-(10_000_000_000_000_000_000_000_000_000int) <= (self.m as int) * (
                SCALE as int) <= 10_000_000_000_000_000_000_000_000_000int) by (nonlinear_arith)
                    requires
                        -(M_MAX as int) <= self.m as int <= M_MAX as int,
                ;
            }
            let p: i128 = self.m * SCALE;
            let pa: i128 = if p < 0 {
                -p
            } else {
                p
            };
            let ba: i128 = if other.m < 0 {
                -other.m
            } else {
                other.m
            };
            proof {
                lemma_div_pos_is_pos(pa as int, ba as int);
                lemma_div_nonincreasing(pa as int, ba as int);
            }
            let qmag: i128 = pa / ba;
            let q: i128 = if (p < 0) != (other.m < 0) {
                -qmag
            } else {
                qmag
            };
            Num { m: clamp_units(q) }
        }
    }

    /// Division by a plain positive integer, truncating toward zero.
    pub fn div_int(self, n: i128) -> (r: Num)
        requires
            1 <= n,
        ensures
            r@ == q_div_int(self@, n as int),
    {
        proof {
            use_type_invariant(&self);
            lemma_tdiv_abs_le(self.m as int, n as int);
        }
        let q: i128 = self.m / n;
        Num { m: clamp_units(q) }
    }

    /// The square root of a nonnegative value, rounded down to the resolution.
    pub fn sqrt(self) -> (r: Num)
        requires
            self@ >= 0,
        ensures
            r@ == q_sqrt(self@),
            r@ >= 0,
    {
        proof {
            use_type_invariant(&self);
            assert((self.m as int) * (SCALE as int) <= 10_000_000_000_000_000_000_000_000_000int)
                by (nonlinear_arith)
                requires
                    0 <= self.m as int <= M_MAX as int,
            ;
        }
        let n: u128 = (self.m as u128) * (SCALE as u128);
        let r = isqrt_units(n);
        proof {
            lemma_isqrt(n as nat);
            assert(r as int <= 100_000_000_000_000int) by (nonlinear_arith)
                requires
                    (r as int) * (r as int) <= 10_000_000_000_000_000_000_000_000_000int,
                    r as int >= 0,
            ;
        }
        Num { m: r as i128 }
    }

    pub fn lt(self, other: Num) -> (r: bool)
        ensures
            r == (self@ < other@),
    {
        self.m < other.m
    }

    pub fn le(self, other: Num) -> (r: bool)
        ensures
            r == (self@ <= other@),
    {
        self.m <= other.m
    }

    pub fn gt(self, other: Num) -> (r: bool)
        ensures
            r == (self@ > other@),
    {
        self.m > other.m
    }

    pub fn ge(self, other: Num) -> (r: bool)
        ensures
            r == (self@ >= other@),
    {
        self.m >= other.m
    }
}

fn isqrt_units(n: u128) -> (r: u128)
    requires
        n <= 10_000_000_000_000_000_000_000_000_000,
    ensures
        r as nat == isqrt_rec(n as nat),
{
    let mut lo: u128 = 0;
    let mut hi: u128 = 100_000_000_000_001;
    proof {
        assert((100_000_000_000_001int) * (100_000_000_000_001int)
            > 10_000_000_000_000_000_000_000_000_000int) by (nonlinear_arith);
    }
    while hi - lo > 1
        invariant
            lo < hi,
            hi <= 100_000_000_000_001,
            n <= 10_000_000_000_000_000_000_000_000_000,
            (lo as int) * (lo as int) <= n as int,
            (n as int) < (hi as int) * (hi as int),
        decreases hi - lo,
    {
        let mid = lo + (hi - lo) / 2;
        proof {
            assert((mid as int) * (mid as int) <= 100_000_000_000_000int * 100_000_000_000_000int)
                by (nonlinear_arith)
                requires
                    0 <= mid as int <= 100_000_000_000_000int,
            ;
        }
        if mid * mid <= n {
            lo = mid;
        } else {
            hi = mid;
        }
    }
    proof {
        lemma_isqrt_unique(n as nat, lo as nat);
    }
    lo
}

/// Natural logarithm of two in `1e-9` units, rounded to the nearest unit.
pub const LN2_UNITS: i128 = 693_147_181;

/// Number of doublings that bring a positive unit count below one half up
/// into `[1/2, 1)`.
pub open spec fn norm_steps(u: int) -> nat
    decreases 1_000_000_000 - u,
{
    if u < 1 || u >= 500_000_000 {
        0
    } else {
        1 + norm_steps(2 * u)
    }
}

/// The inverse-hyperbolic-tangent series with eight terms, evaluated on the
/// fixed-point operations exactly as [`Num::ln`] computes it.
pub open spec fn atanh_series(z: int) -> int {
    let z2 = q_mul(z, z);
    let t3 = q_mul(z, z2);
    let t5 = q_mul(t3, z2);
    let t7 = q_mul(t5, z2);
    let t9 = q_mul(t7, z2);
    let t11 = q_mul(t9, z2);
    let t13 = q_mul(t11, z2);
    let t15 = q_mul(t13, z2);
    let a3 = q_add(z, q_div_int(t3, 3));
    let a5 = q_add(a3, q_div_int(t5, 5));
    let a7 = q_add(a5, q_div_int(t7, 7));
    let a9 = q_add(a7, q_div_int(t9, 9));
    let a11 = q_add(a9, q_div_int(t11, 11));
    let a13 = q_add(a11, q_div_int(t13, 13));
    q_add(a13, q_div_int(t15, 15))
}

/// What [`Num::ln`] yields on a unit count in `(0, 1)`: the argument is
/// doubled into `[1/2, 1)`, the series gives the logarithm of the scaled
/// value, and the doublings are paid back in units of `ln 2`.
pub open spec fn ln_spec(m: int) -> int {
    let k = norm_steps(m);
    let u = m * pow2(k);
    let z = q_div(q_sub(u, SCALE as int), q_add(u, SCALE as int));
    let a = atanh_series(z);
    q_sub(q_add(a, a), k * (LN2_UNITS as int))
}

impl Num {
    /// Natural logarithm of a value in `(0, 1)`, by binary range reduction
    /// and an eight-term series; the result is the fixed-point evaluation
    /// that [`ln_spec`] states, an approximation of the real logarithm good
    /// to a few billionths.
    pub fn ln(self) -> (r: Num)
        requires
            1 <= self@ < SCALE as int,
        ensures
            r@ == ln_spec(self@),
    {
        proof {
            use_type_invariant(&self);
            vstd::arithmetic::power2::lemma2_to64();
        }
        let mut u: i128 = self.m;
        let mut k: u32 = 0;
        proof {
            assert(pow2(0) == 1) by {
                vstd::arithmetic::power2::lemma2_to64();
            }
        }
        while u < 500_000_000
            invariant
                1 <= u < 1_000_000_000,
                k <= 30,
                u as int == self@ * pow2(k as nat),
                norm_steps(self@) == k + norm_steps(u as int),
                1 <= self@ < SCALE as int,
            decreases 1_000_000_000 - u,
        {
            proof {
                lemma_double_pow2(self@, k as nat, u as int);
            }
            u = 2 * u;
            k = k + 1;
        }
        let un = Num { m: u };
        let one = Num { m: SCALE };
        let z = un.sub(one).div(un.add(one));
        let z2 = z.mul(z);
        let mut acc = z;
        let mut t = z;
        t = t.mul(z2);
        acc = acc.add(t.div_int(3));
        t = t.mul(z2);
        acc = acc.add(t.div_int(5));
        t = t.mul(z2);
        acc = acc.add(t.div_int(7));
        t = t.mul(z2);
        acc = acc.add(t.div_int(9));
        t = t.mul(z2);
        acc = acc.add(t.div_int(11));
        t = t.mul(z2);
        acc = acc.add(t.div_int(13));
        t = t.mul(z2);
        acc = acc.add(t.div_int(15));
        let lnu = acc.add(acc);
        let payback = Num { m: (k as i128) * LN2_UNITS };
        lnu.sub(payback)
    }
}

/// One doubling step of the range reduction: the step count moves over to
/// the power of two.
proof fn lemma_double_pow2(m: int, k: nat, u: int)
    requires
        1 <= m,
        1 <= u < 500_000_000,
        u == m * pow2(k),
        norm_steps(m) == k + norm_steps(u),
    ensures
        2 * u == m * pow2((k + 1) as nat),
        norm_steps(m) == (k + 1) + norm_steps(2 * u),
        k + 1 <= 30,
{
    vstd::arithmetic::power2::lemma_pow2_unfold((k + 1) as nat);
    assert(2 * u == m * (2 * pow2(k))) by (nonlinear_arith)
        requires
            u == m * pow2(k),
    ;
    assert(norm_steps(u) == 1 + norm_steps(2 * u));
    if k + 1 > 30 {
        vstd::arithmetic::power2::lemma2_to64();
        if k >= 31 {
            vstd::arithmetic::power2::lemma_pow2_strictly_increases(30, k as nat);
        }
        assert(pow2(k) >= 1073741824);
        assert(m * pow2(k) >= 1073741824) by (nonlinear_arith)
            requires
                m >= 1,
                pow2(k) >= 1073741824,
        ;
        assert(false);
    }
}

/// One entry of a residual vector: a finite scalar, or the invalid marker
/// used where the model could not reproduce a measurement and no penalty is
/// defined.  The view is `Some` of the value, or `None` when invalid.
#[derive(Clone, Copy, Debug, PartialEq, Eq, Structural)]
pub enum Residual {
    Finite(Num),
    Invalid,
}

impl View for Residual {
    type V = Option<int>;

    open spec fn view(&self) -> Option<int> {
        match self {
            Residual::Finite(n) => Some(n@),
            Residual::Invalid => None,
        }
    }
}

} // verus!
