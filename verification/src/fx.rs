//! Fixed-point scalars.
//!
//! A real number `x` is represented by the integer closest to
//! `x * FX_SCALE`, stored in an `i64`.  All operations saturate at the
//! `i64` range instead of wrapping, so every function here is total and
//! panic-free, and each result is pinned down exactly by a spec function
//! over the underlying integers.

use vstd::prelude::*;

verus! {

/// Number of fixed-point units per whole unit (2^20).
pub const FX_SCALE: i64 = 1048576;

/// A fixed-point scalar: the represented value is `bits / FX_SCALE`.
#[derive(Clone, Copy, Debug, PartialEq, Eq, Structural)]
pub struct Fx {
    pub bits: i64,
}

impl View for Fx {
    type V = int;

    open spec fn view(&self) -> int {
        self.bits as int
    }
}

/// Clip an integer to the `i64` range.
pub open spec fn sat64(x: int) -> int {
    if x > i64::MAX as int {
        i64::MAX as int
    } else if x < i64::MIN as int {
        i64::MIN as int
    } else {
        x
    }
}

/// Absolute value of an integer.
pub open spec fn abs_i(x: int) -> int {
    if x < 0 {
        -x
    } else {
        x
    }
}

pub open spec fn fadd_spec(a: int, b: int) -> int {
    sat64(a + b)
}

pub open spec fn fsub_spec(a: int, b: int) -> int {
    sat64(a - b)
}

pub open spec fn fneg_spec(a: int) -> int {
    sat64(-a)
}

/// Fixed-point product: the magnitudes are multiplied exactly and the
/// result is rescaled by flooring division, with the sign reapplied.
pub open spec fn fmul_spec(a: int, b: int) -> int {
    let m = (abs_i(a) * abs_i(b)) / (FX_SCALE as int);
    sat64(
        if (a < 0) != (b < 0) {
            -m
        } else {
            m
        },
    )
}

/// Fixed-point quotient, meaningful only for `b != 0`.
pub open spec fn fdiv_spec(a: int, b: int) -> int {
    let m = (abs_i(a) * (FX_SCALE as int)) / abs_i(b);
    sat64(
        if (a < 0) != (b < 0) {
            -m
        } else {
            m
        },
    )
}

/// Integer square root by halving the operand's bits: the floor of the
/// real square root of `n`.
pub open spec fn isqrt_spec(n: int) -> int
    decreases n,
{
    if n < 1 {
        0
    } else if n < 4 {
        1
    } else {
        let r = 2 * isqrt_spec(n / 4);
        if (r + 1) * (r + 1) <= n {
            r + 1
        } else {
            r
        }
    }
}

/// Fixed-point square root of a non-negative scalar.
pub open spec fn fsqrt_spec(a: int) -> int {
    isqrt_spec(a * (FX_SCALE as int))
}

pub open spec fn fclamp_spec(a: int) -> int {
    if a < 0 {
        0
    } else if a > FX_SCALE as int {
        FX_SCALE as int
    } else {
        a
    }
}

fn sat_from_i128(x: i128) -> (r: i64)
    ensures
        r as int == sat64(x as int),
{
    if x > i64::MAX as i128 {
        i64::MAX
    } else if x < i64::MIN as i128 {
        i64::MIN
    } else {
        x as i64
    }
}

impl Fx {
    /// The scalar with exactly the given underlying bits.
    pub fn from_bits(bits: i64) -> (r: Fx)
        ensures
            r@ == bits as int,
    {
        Fx { bits }
    }

    /// The scalar representing the whole number `n`.
    pub fn from_int(n: i64) -> (r: Fx)
        ensures
            r@ == sat64(n * FX_SCALE),
    {
        proof {
            assert(-0x100000000000000000000000 <= (n as int) * (FX_SCALE as int)
                && (n as int) * (FX_SCALE as int) <= 0x100000000000000000000000) by (nonlinear_arith)
                requires
                    -0x8000000000000000 <= n as int <= 0x7FFFFFFFFFFFFFFF,
                    FX_SCALE as int == 0x100000,
            ;
        }
        Fx { bits: sat_from_i128((n as i128) * (FX_SCALE as i128)) }
    }

    pub fn zero() -> (r: Fx)
        ensures
            r@ == 0,
    {
        Fx { bits: 0 }
    }

    pub fn one() -> (r: Fx)
        ensures
            r@ == FX_SCALE as int,
    {
        Fx { bits: FX_SCALE }
    }

    pub fn lt(self, o: Fx) -> (r: bool)
        ensures
            r == (self@ < o@),
    {
        self.bits < o.bits
    }

    pub fn le(self, o: Fx) -> (r: bool)
        ensures
            r == (self@ <= o@),
    {
        self.bits <= o.bits
    }

    pub fn gt(self, o: Fx) -> (r: bool)
        ensures
            r == (self@ > o@),
    {
        self.bits > o.bits
    }

    pub fn ge(self, o: Fx) -> (r: bool)
        ensures
            r == (self@ >= o@),
    {
        self.bits >= o.bits
    }

    pub fn abs(self) -> (r: Fx)
        ensures
            r@ == sat64(abs_i(self@)),
    {
        if self.bits < 0 {
            fneg(self)
        } else {
            self
        }
    }
}

pub fn fadd(a: Fx, b: Fx) -> (r: Fx)
    ensures
        r@ == fadd_spec(a@, b@),
{
    Fx { bits: sat_from_i128(a.bits as i128 + b.bits as i128) }
}

pub fn fsub(a: Fx, b: Fx) -> (r: Fx)
    ensures
        r@ == fsub_spec(a@, b@),
{
    Fx { bits: sat_from_i128(a.bits as i128 - b.bits as i128) }
}

pub fn fneg(a: Fx) -> (r: Fx)
    ensures
        r@ == fneg_spec(a@),
{
    Fx { bits: sat_from_i128(-(a.bits as i128)) }
}

pub fn fmul(a: Fx, b: Fx) -> (r: Fx)
    ensures
        r@ == fmul_spec(a@, b@),
{
    let wa: i128 = a.bits as i128;
    let wb: i128 = b.bits as i128;
    let neg: bool = (wa < 0) != (wb < 0);
    let ua: u128 = (if wa < 0 {
        -wa
    } else {
        wa
    }) as u128;
    let ub: u128 = (if wb < 0 {
        -wb
    } else {
        wb
    }) as u128;
    proof {
        assert(ua * ub <= 0x8000000000000000 * 0x8000000000000000) by (nonlinear_arith)
            requires
                ua <= 0x8000000000000000,
                ub <= 0x8000000000000000,
        ;
    }
    let m: u128 = (ua * ub) / (FX_SCALE as u128);
    sign_sat(neg, m)
}

pub fn fdiv(a: Fx, b: Fx) -> (r: Fx)
    requires
        b@ != 0,
    ensures
        r@ == fdiv_spec(a@, b@),
{
    let wa: i128 = a.bits as i128;
    let wb: i128 = b.bits as i128;
    let neg: bool = (wa < 0) != (wb < 0);
    let ua: u128 = (if wa < 0 {
        -wa
    } else {
        wa
    }) as u128;
    let ub: u128 = (if wb < 0 {
        -wb
    } else {
        wb
    }) as u128;
    proof {
        assert(ua * (FX_SCALE as u128) <= 0x8000000000000000 * 0x100000) by (nonlinear_arith)
            requires
                ua <= 0x8000000000000000,
        ;
    }
    let m: u128 = (ua * (FX_SCALE as u128)) / ub;
    sign_sat(neg, m)
}

/// Attach a sign to a magnitude and clip the result to the `i64` range.
fn sign_sat(neg: bool, m: u128) -> (r: Fx)
    ensures
        r@ == sat64(
            if neg {
                -(m as int)
            } else {
                m as int
            },
        ),
{
    if neg {
        if m > 0x8000000000000000u128 {
            Fx { bits: i64::MIN }
        } else {
            Fx { bits: (-(m as i128)) as i64 }
        }
    } else {
        if m > 0x7FFFFFFFFFFFFFFFu128 {
            Fx { bits: i64::MAX }
        } else {
            Fx { bits: m as i64 }
        }
    }
}

fn isqrt_u(n: u128) -> (r: u128)
    requires
        n <= 0x1000000000000000000000000,  // 2^96
    ensures
        r as int == isqrt_spec(n as int),
        (r as int) * (r as int) <= n as int,
        (n as int) < (r as int + 1) * (r as int + 1),
    decreases n,
{
    if n < 1 {
        0
    } else if n < 4 {
        1
    } else {
        let h = isqrt_u(n / 4);
        proof {
            let ni = n as int;
            let hi = h as int;
            let q = ni / 4;
            assert(hi * hi <= q);
            assert(q <= 0x400000000000000000000000);
            assert(hi >= 0);
            assert(hi < 0x1000000000000) by (nonlinear_arith)
                requires
                    hi * hi <= q,
                    q <= 0x400000000000000000000000,
                    hi >= 0,
            ;
            assert(4 * q <= ni && ni <= 4 * q + 3);
            assert(q < (hi + 1) * (hi + 1));
            assert((2 * hi) * (2 * hi) == 4 * (hi * hi)) by (nonlinear_arith);
            assert(4 * (hi * hi) <= 4 * q);
            assert((2 * hi + 2) * (2 * hi + 2) == 4 * ((hi + 1) * (hi + 1))) by (nonlinear_arith);
            assert(ni <= 4 * ((hi + 1) * (hi + 1)) - 1);
            assert((2 * hi + 1) * (2 * hi + 1) <= 0x4000000000000000000000000) by (nonlinear_arith)
                requires
                    0 <= hi < 0x1000000000000,
            ;
        }
        let c = 2 * h + 1;
        if c * c <= n {
            c
        } else {
            2 * h
        }
    }
}

pub fn fsqrt(a: Fx) -> (r: Fx)
    requires
        a@ >= 0,
    ensures
        r@ == fsqrt_spec(a@),
        r@ >= 0,
        r@ * r@ <= a@ * FX_SCALE,
        (a@ * FX_SCALE) < (r@ + 1) * (r@ + 1),
{
    let n: u128 = (a.bits as u128) * (FX_SCALE as u128);
    proof {
        assert(n <= 0x8000000000000000 * 0x100000) by (nonlinear_arith)
            requires
                n == (a.bits as u128) * (FX_SCALE as u128),
                a.bits as u128 <= 0x8000000000000000,
        ;
    }
    let r = isqrt_u(n);
    proof {
        assert(r < 0x8000000000000000) by (nonlinear_arith)
            requires
                (r as int) * (r as int) <= n as int,
                n <= 0x80000000000000000000000,
        ;
    }
    Fx { bits: r as i64 }
}

/// Restrict a scalar to the unit interval `[0, 1]`.
pub fn fclamp(a: Fx) -> (r: Fx)
    ensures
        r@ == fclamp_spec(a@),
{
    if a.bits < 0 {
        Fx { bits: 0 }
    } else if a.bits > FX_SCALE {
        Fx { bits: FX_SCALE }
    } else {
        a
    }
}

/// Restricting to the unit interval is idempotent: a second application
/// of `fclamp_spec` never changes the value.
pub proof fn lemma_clamp_idempotent(x: int)
    ensures
        fclamp_spec(fclamp_spec(x)) == fclamp_spec(x),
{
}

/// The fixed-point square of any scalar is non-negative.
pub proof fn lemma_fmul_self_nonneg(a: int)
    ensures
        fmul_spec(a, a) >= 0,
{
    assert(abs_i(a) * abs_i(a) >= 0) by (nonlinear_arith);
    assert((abs_i(a) * abs_i(a)) / (FX_SCALE as int) >= 0);
}


/// The circle constant at the fixed-point scale.
pub const PI_BITS: i64 = 3294199;

/// Twice the circle constant at the fixed-point scale.
pub const TWO_PI_BITS: i64 = 6588398;

/// Half the circle constant at the fixed-point scale.
pub const HALF_PI_BITS: i64 = 1647099;

/// Fixed-point value of the circle constant.
pub fn pi() -> (r: Fx)
    ensures
        r@ == PI_BITS as int,
{
    Fx { bits: PI_BITS }
}

/// Cosine near zero, by the Taylor polynomial
/// `1 - t^2/2 + t^4/24 - t^6/720`; accurate on `[0, pi/2]`.
pub open spec fn cos_quarter_spec(t: int) -> int {
    let t2 = fmul_spec(t, t);
    let t4 = fmul_spec(t2, t2);
    let t6 = fmul_spec(t4, t2);
    fsub_spec(fadd_spec(fsub_spec(FX_SCALE as int, t2 / 2), t4 / 24), t6 / 720)
}

/// Cosine on `[0, 2 pi]`, by quadrant reduction to the Taylor polynomial.
pub open spec fn cos_spec(x: int) -> int {
    if x <= HALF_PI_BITS as int {
        cos_quarter_spec(x)
    } else if x <= PI_BITS as int {
        fneg_spec(cos_quarter_spec(PI_BITS as int - x))
    } else if x <= PI_BITS as int + HALF_PI_BITS as int {
        fneg_spec(cos_quarter_spec(x - PI_BITS as int))
    } else {
        cos_quarter_spec(TWO_PI_BITS as int - x)
    }
}

/// Sine on `[0, 2 pi]`, as the cosine shifted by a quarter turn.
pub open spec fn sin_spec(x: int) -> int {
    if x >= HALF_PI_BITS as int {
        cos_spec(x - HALF_PI_BITS as int)
    } else {
        cos_spec(HALF_PI_BITS as int - x)
    }
}

fn cos_quarter(t: Fx) -> (r: Fx)
    requires
        0 <= t@,
    ensures
        r@ == cos_quarter_spec(t@),
{
    let t2 = fmul(t, t);
    proof {
        lemma_fmul_self_nonneg(t@);
        lemma_fmul_self_nonneg(fmul_spec(t@, t@));
    }
    let t4 = fmul(t2, t2);
    proof {
        lemma_fmul_nonneg(fmul_spec(fmul_spec(t@, t@), fmul_spec(t@, t@)), fmul_spec(t@, t@));
    }
    let t6 = fmul(t4, t2);
    let q2 = Fx { bits: ((t2.bits as u64) / 2) as i64 };
    let q4 = Fx { bits: ((t4.bits as u64) / 24) as i64 };
    let q6 = Fx { bits: ((t6.bits as u64) / 720) as i64 };
    fsub(fadd(fsub(Fx { bits: FX_SCALE }, q2), q4), q6)
}

/// Fixed-point cosine on `[0, 2 pi]`.
pub fn cos_fx(x: Fx) -> (r: Fx)
    requires
        0 <= x@ <= TWO_PI_BITS as int,
    ensures
        r@ == cos_spec(x@),
{
    if x.bits <= HALF_PI_BITS {
        cos_quarter(x)
    } else if x.bits <= PI_BITS {
        fneg(cos_quarter(Fx { bits: PI_BITS - x.bits }))
    } else if x.bits <= PI_BITS + HALF_PI_BITS {
        fneg(cos_quarter(Fx { bits: x.bits - PI_BITS }))
    } else {
        cos_quarter(Fx { bits: TWO_PI_BITS - x.bits })
    }
}

/// Fixed-point sine on `[0, 2 pi]`.
pub fn sin_fx(x: Fx) -> (r: Fx)
    requires
        0 <= x@ <= TWO_PI_BITS as int,
    ensures
        r@ == sin_spec(x@),
{
    if x.bits >= HALF_PI_BITS {
        cos_fx(Fx { bits: x.bits - HALF_PI_BITS })
    } else {
        cos_fx(Fx { bits: HALF_PI_BITS - x.bits })
    }
}

/// The fixed-point product of non-negative scalars is non-negative.
pub proof fn lemma_fmul_nonneg(a: int, b: int)
    requires
        0 <= a,
        0 <= b,
    ensures
        fmul_spec(a, b) >= 0,
{
    assert(a * b >= 0) by (nonlinear_arith)
        requires
            0 <= a,
            0 <= b,
    ;
    vstd::arithmetic::div_mod::lemma_div_pos_is_pos(a * b, FX_SCALE as int);
}

/// The fixed-point product of a sub-unit non-negative scalar with a
/// non-negative scalar never exceeds the latter.
pub proof fn lemma_fmul_nonneg_le(a: int, b: int)
    requires
        0 <= a <= FX_SCALE as int,
        0 <= b <= i64::MAX as int,
    ensures
        0 <= fmul_spec(a, b) <= b,
{
    let s = FX_SCALE as int;
    assert(a * b <= s * b) by (nonlinear_arith)
        requires
            0 <= a <= s,
            0 <= b,
    ;
    assert(a * b >= 0) by (nonlinear_arith)
        requires
            0 <= a,
            0 <= b,
    ;
    vstd::arithmetic::div_mod::lemma_div_is_ordered(a * b, s * b, s);
    vstd::arithmetic::div_mod::lemma_div_multiples_vanish(b, s);
    vstd::arithmetic::div_mod::lemma_div_pos_is_pos(a * b, s);
}


/// The integer square root is the floor of the real square root: its
/// square is at most `n`, and the next square exceeds `n`.
pub proof fn lemma_isqrt_bounds(n: int)
    requires
        n >= 0,
    ensures
        isqrt_spec(n) >= 0,
        isqrt_spec(n) * isqrt_spec(n) <= n,
        n < (isqrt_spec(n) + 1) * (isqrt_spec(n) + 1),
    decreases n,
{
    if n < 1 {
        let s = isqrt_spec(n);
        assert(s == 0);
        assert(s * s == 0 && (s + 1) * (s + 1) == 1) by (nonlinear_arith)
            requires
                s == 0,
        ;
    } else if n < 4 {
        let s = isqrt_spec(n);
        assert(s == 1);
        assert(s * s == 1 && (s + 1) * (s + 1) == 4) by (nonlinear_arith)
            requires
                s == 1,
        ;
    } else {
        lemma_isqrt_bounds(n / 4);
        let h = isqrt_spec(n / 4);
        let q = n / 4;
        assert(4 * q <= n && n <= 4 * q + 3);
        assert((2 * h) * (2 * h) == 4 * (h * h)) by (nonlinear_arith);
        assert(4 * (h * h) <= 4 * q);
        assert((2 * h + 2) * (2 * h + 2) == 4 * ((h + 1) * (h + 1))) by (nonlinear_arith);
        assert(n <= 4 * ((h + 1) * (h + 1)) - 1);
        let r = isqrt_spec(n);
        if (2 * h + 1) * (2 * h + 1) <= n {
            assert(r == 2 * h + 1);
            assert((r + 1) * (r + 1) == (2 * h + 2) * (2 * h + 2));
            assert(n < (r + 1) * (r + 1));
        } else {
            assert(r == 2 * h);
            assert(r * r == (2 * h) * (2 * h));
            assert((r + 1) * (r + 1) == (2 * h + 1) * (2 * h + 1));
            assert(n < (r + 1) * (r + 1));
        }
    }
}

/// Floor square roots are unique: any non-negative `r` whose square
/// brackets `n` is the integer square root of `n`.
pub proof fn lemma_isqrt_unique(n: int, r: int)
    requires
        n >= 0,
        r >= 0,
        r * r <= n,
        n < (r + 1) * (r + 1),
    ensures
        isqrt_spec(n) == r,
{
    lemma_isqrt_bounds(n);
    let s = isqrt_spec(n);
    if s < r {
        assert((s + 1) * (s + 1) <= r * r) by (nonlinear_arith)
            requires
                0 <= s,
                s + 1 <= r,
        ;
        assert(false);
    }
    if s > r {
        assert((r + 1) * (r + 1) <= s * s) by (nonlinear_arith)
            requires
                0 <= r,
                r + 1 <= s,
        ;
        assert(false);
    }
}

} // verus!
