//! Three-component vector algebra over fixed-point scalars.

use vstd::prelude::*;
use crate::fx::Fx;
use crate::fx::FX_SCALE;
use crate::fx::fadd;
use crate::fx::fsub;
use crate::fx::fmul;
use crate::fx::fdiv;
use crate::fx::fneg;
use crate::fx::fsqrt;
use crate::fx::fadd_spec;
use crate::fx::fsub_spec;
use crate::fx::fmul_spec;
use crate::fx::fdiv_spec;
use crate::fx::fneg_spec;
use crate::fx::fsqrt_spec;
use crate::fx::lemma_fmul_self_nonneg;
use crate::fx::lemma_isqrt_unique;
use crate::fx::abs_i;

verus! {

/// Twice the unit, at the fixed-point scale.
pub const FX_TWO: i64 = 2097152;

/// A vector of three fixed-point components.
#[derive(Clone, Copy, Debug, PartialEq, Eq, Structural)]
pub struct Vec3 {
    pub x: Fx,
    pub y: Fx,
    pub z: Fx,
}

/// A scalar with the given underlying integer (spec-side constructor).
pub open spec fn fxs(b: int) -> Fx {
    Fx { bits: b as i64 }
}

/// A vector with the given underlying integers (spec-side constructor).
pub open spec fn v3s(x: int, y: int, z: int) -> Vec3 {
    Vec3 { x: fxs(x), y: fxs(y), z: fxs(z) }
}

pub open spec fn vadd_spec(a: Vec3, b: Vec3) -> Vec3 {
    v3s(fadd_spec(a.x@, b.x@), fadd_spec(a.y@, b.y@), fadd_spec(a.z@, b.z@))
}

pub open spec fn vsub_spec(a: Vec3, b: Vec3) -> Vec3 {
    v3s(fsub_spec(a.x@, b.x@), fsub_spec(a.y@, b.y@), fsub_spec(a.z@, b.z@))
}

pub open spec fn vmul_spec(a: Vec3, b: Vec3) -> Vec3 {
    v3s(fmul_spec(a.x@, b.x@), fmul_spec(a.y@, b.y@), fmul_spec(a.z@, b.z@))
}

pub open spec fn vscale_spec(a: Vec3, t: int) -> Vec3 {
    v3s(fmul_spec(a.x@, t), fmul_spec(a.y@, t), fmul_spec(a.z@, t))
}

pub open spec fn vdiv_spec(a: Vec3, t: int) -> Vec3 {
    v3s(fdiv_spec(a.x@, t), fdiv_spec(a.y@, t), fdiv_spec(a.z@, t))
}

pub open spec fn vneg_spec(a: Vec3) -> Vec3 {
    v3s(fneg_spec(a.x@), fneg_spec(a.y@), fneg_spec(a.z@))
}

/// Fixed-point dot product: the three component products, rescaled and
/// summed with saturation.
pub open spec fn dot_spec(u: Vec3, v: Vec3) -> int {
    fadd_spec(fadd_spec(fmul_spec(u.x@, v.x@), fmul_spec(u.y@, v.y@)), fmul_spec(u.z@, v.z@))
}

pub open spec fn cross_spec(u: Vec3, v: Vec3) -> Vec3 {
    v3s(
        fsub_spec(fmul_spec(u.y@, v.z@), fmul_spec(u.z@, v.y@)),
        fsub_spec(fmul_spec(u.z@, v.x@), fmul_spec(u.x@, v.z@)),
        fsub_spec(fmul_spec(u.x@, v.y@), fmul_spec(u.y@, v.x@)),
    )
}

/// Reflection of `v` in the normal `n`: `v - 2 (v . n) n`.
pub open spec fn reflect_spec(v: Vec3, n: Vec3) -> Vec3 {
    vsub_spec(v, vscale_spec(n, fmul_spec(FX_TWO as int, dot_spec(v, n))))
}

pub open spec fn length_sq_spec(v: Vec3) -> int {
    dot_spec(v, v)
}

pub open spec fn length_spec(v: Vec3) -> int {
    fsqrt_spec(dot_spec(v, v))
}

pub open spec fn normalise_spec(v: Vec3) -> Vec3 {
    vdiv_spec(v, length_spec(v))
}

pub fn dot(u: Vec3, v: Vec3) -> (r: Fx)
    ensures
        r@ == dot_spec(u, v),
{
    fadd(fadd(fmul(u.x, v.x), fmul(u.y, v.y)), fmul(u.z, v.z))
}

pub fn cross(u: Vec3, v: Vec3) -> (r: Vec3)
    ensures
        r == cross_spec(u, v),
{
    Vec3 {
        x: fsub(fmul(u.y, v.z), fmul(u.z, v.y)),
        y: fsub(fmul(u.z, v.x), fmul(u.x, v.z)),
        z: fsub(fmul(u.x, v.y), fmul(u.y, v.x)),
    }
}

/// Reflect `v` in `n`, which should be normalised.
pub fn reflect(v: Vec3, n: Vec3) -> (r: Vec3)
    ensures
        r == reflect_spec(v, n),
{
    let t = fmul(Fx { bits: FX_TWO }, dot(v, n));
    v.sub(n.scale(t))
}

impl Vec3 {
    pub fn new(x: Fx, y: Fx, z: Fx) -> (r: Vec3)
        ensures
            r == (Vec3 { x, y, z }),
    {
        Vec3 { x, y, z }
    }

    pub fn x(&self) -> (r: Fx)
        ensures
            r == self.x,
    {
        self.x
    }

    pub fn y(&self) -> (r: Fx)
        ensures
            r == self.y,
    {
        self.y
    }

    pub fn z(&self) -> (r: Fx)
        ensures
            r == self.z,
    {
        self.z
    }

    pub fn add(self, other: Vec3) -> (r: Vec3)
        ensures
            r == vadd_spec(self, other),
    {
        Vec3 { x: fadd(self.x, other.x), y: fadd(self.y, other.y), z: fadd(self.z, other.z) }
    }

    pub fn sub(self, other: Vec3) -> (r: Vec3)
        ensures
            r == vsub_spec(self, other),
    {
        Vec3 { x: fsub(self.x, other.x), y: fsub(self.y, other.y), z: fsub(self.z, other.z) }
    }

    /// Component-wise product.
    pub fn mul(self, other: Vec3) -> (r: Vec3)
        ensures
            r == vmul_spec(self, other),
    {
        Vec3 { x: fmul(self.x, other.x), y: fmul(self.y, other.y), z: fmul(self.z, other.z) }
    }

    pub fn scale(self, t: Fx) -> (r: Vec3)
        ensures
            r == vscale_spec(self, t@),
    {
        Vec3 { x: fmul(self.x, t), y: fmul(self.y, t), z: fmul(self.z, t) }
    }

    pub fn div_s(self, t: Fx) -> (r: Vec3)
        requires
            t@ != 0,
        ensures
            r == vdiv_spec(self, t@),
    {
        Vec3 { x: fdiv(self.x, t), y: fdiv(self.y, t), z: fdiv(self.z, t) }
    }

    pub fn add_assign(&mut self, other: Vec3)
        ensures
            *final(self) == vadd_spec(*old(self), other),
    {
        *self = self.add(other);
    }

    pub fn neg(self) -> (r: Vec3)
        ensures
            r == vneg_spec(self),
    {
        Vec3 { x: fneg(self.x), y: fneg(self.y), z: fneg(self.z) }
    }

    pub fn length_squared(&self) -> (r: Fx)
        ensures
            r@ == length_sq_spec(*self),
            r@ >= 0,
    {
        proof {
            lemma_dot_self_nonneg(*self);
        }
        dot(*self, *self)
    }

    pub fn length(&self) -> (r: Fx)
        ensures
            r@ == length_spec(*self),
            r@ >= 0,
    {
        let sq = self.length_squared();
        fsqrt(sq)
    }

    /// Normalise to unit length.  A zero-length vector is outside the
    /// domain; callers must avoid it by construction.
    pub fn normalise(self) -> (r: Vec3)
        requires
            dot_spec(self, self) > 0,
        ensures
            r == normalise_spec(self),
    {
        let len = self.length();
        proof {
            let n = dot_spec(self, self) * (FX_SCALE as int);
            assert(n >= 1) by (nonlinear_arith)
                requires
                    n == dot_spec(self, self) * (FX_SCALE as int),
                    dot_spec(self, self) >= 1,
                    FX_SCALE as int == 0x100000,
            ;
            if len@ == 0 {
                assert((len@ + 1) * (len@ + 1) == 1);
                assert(false);
            }
        }
        self.div_s(len)
    }
}

/// The dot product of a vector with itself is never negative.
pub proof fn lemma_dot_self_nonneg(v: Vec3)
    ensures
        dot_spec(v, v) >= 0,
{
    lemma_fmul_self_nonneg(v.x@);
    lemma_fmul_self_nonneg(v.y@);
    lemma_fmul_self_nonneg(v.z@);
}

/// Exact (unrounded) dot product of two vectors' underlying integers,
/// carrying twice the fixed-point scale.
pub open spec fn dot_exact(u: Vec3, v: Vec3) -> int {
    u.x@ * v.x@ + u.y@ * v.y@ + u.z@ * v.z@
}

/// The square of the fixed-point scale: the exact dot product of two
/// unit vectors carries this factor.
pub open spec fn scale_sq() -> int {
    (FX_SCALE as int) * (FX_SCALE as int)
}

/// Exact reflection of `v` in `n` over the underlying integers, carrying
/// three times the fixed-point scale: component `i` is
/// `S^2 * v_i - 2 * (v . n) * n_i`.
pub open spec fn reflect_exact(v: Vec3, n: Vec3) -> (int, int, int) {
    (
        scale_sq() * v.x@ - 2 * dot_exact(v, n) * n.x@,
        scale_sq() * v.y@ - 2 * dot_exact(v, n) * n.y@,
        scale_sq() * v.z@ - 2 * dot_exact(v, n) * n.z@,
    )
}

/// Exact dot product of an integer triple with a vector's underlying
/// integers.
pub open spec fn dot_exact3(t: (int, int, int), n: Vec3) -> int {
    t.0 * n.x@ + t.1 * n.y@ + t.2 * n.z@
}

/// Reflecting in a unit normal flips exactly the normal component of a
/// vector: over the exact integer model, the dot product of the
/// reflection of `v` in `n` with `n` is the negation of the dot product
/// of `v` with `n` (both sides carry three scale factors).
pub proof fn lemma_reflect_dot_sign(v: Vec3, n: Vec3)
    requires
        dot_exact(n, n) == scale_sq(),
    ensures
        dot_exact3(reflect_exact(v, n), n) == -(scale_sq() * dot_exact(v, n)),
{
    let s2 = scale_sq();
    let d = dot_exact(v, n);
    let vx = v.x@;
    let vy = v.y@;
    let vz = v.z@;
    let nx = n.x@;
    let ny = n.y@;
    let nz = n.z@;
    assert((s2 * vx - 2 * d * nx) * nx == s2 * (vx * nx) - 2 * d * (nx * nx)) by (nonlinear_arith);
    assert((s2 * vy - 2 * d * ny) * ny == s2 * (vy * ny) - 2 * d * (ny * ny)) by (nonlinear_arith);
    assert((s2 * vz - 2 * d * nz) * nz == s2 * (vz * nz) - 2 * d * (nz * nz)) by (nonlinear_arith);
    assert(s2 * (vx * nx) + s2 * (vy * ny) + s2 * (vz * nz) == s2 * (vx * nx + vy * ny + vz * nz))
        by (nonlinear_arith);
    assert(2 * d * (nx * nx) + 2 * d * (ny * ny) + 2 * d * (nz * nz) == 2 * d * (nx * nx + ny * ny
        + nz * nz)) by (nonlinear_arith);
    assert(s2 * d - 2 * d * s2 == -(s2 * d)) by (nonlinear_arith);
}


/// A unit-length law that fixed-point rounding cannot disturb:
/// normalising a whole-number multiple of any coordinate axis, in
/// either direction, yields a vector whose fixed-point length is
/// exactly one.
pub proof fn lemma_normalise_axis_unit(v: Vec3, k: int)
    requires
        1 <= k <= 2097151,
        v == v3s(k * (FX_SCALE as int), 0, 0) || v == v3s(-(k * (FX_SCALE as int)), 0, 0) || v
            == v3s(0, k * (FX_SCALE as int), 0) || v == v3s(0, -(k * (FX_SCALE as int)), 0) || v
            == v3s(0, 0, k * (FX_SCALE as int)) || v == v3s(0, 0, -(k * (FX_SCALE as int))),
    ensures
        length_spec(normalise_spec(v)) == FX_SCALE as int,
{
    let s = FX_SCALE as int;
    let c = k * s;
    assert(1 * s <= c && c <= 2097151 * s) by (nonlinear_arith)
        requires
            c == k * s,
            1 <= k <= 2097151,
            s == 0x100000,
    ;
    assert((k * s) * (k * s) == s * (k * k * s)) by (nonlinear_arith);
    assert(0 < k * k * s && k * k * s <= 0x4000000000000000) by (nonlinear_arith)
        requires
            1 <= k <= 2097151,
            s == 0x100000,
    ;
    vstd::arithmetic::div_mod::lemma_div_multiples_vanish(k * k * s, s);
    vstd::arithmetic::div_mod::lemma_div_of0(s);
    assert(abs_i(0) * abs_i(0) == 0) by (nonlinear_arith);
    assert(fmul_spec(c, c) == k * k * s);
    assert(fmul_spec(-c, -c) == k * k * s);
    assert(fmul_spec(0, 0) == 0);
    assert(dot_spec(v, v) == k * k * s);
    assert((k * s) * (k * s) == (k * k * s) * s) by (nonlinear_arith);
    assert((k * k * s) * s < (k * s + 1) * (k * s + 1)) by (nonlinear_arith)
        requires
            (k * s) * (k * s) == (k * k * s) * s,
            k * s >= 1,
    ;
    lemma_isqrt_unique((k * k * s) * s, k * s);
    assert(length_spec(v) == c);
    vstd::arithmetic::div_mod::lemma_div_multiples_vanish(s, c);
    vstd::arithmetic::div_mod::lemma_div_of0(c);
    assert(fdiv_spec(c, c) == s);
    assert(fdiv_spec(-c, c) == -s);
    assert(fdiv_spec(0, c) == 0);
    let u = normalise_spec(v);
    vstd::arithmetic::div_mod::lemma_div_multiples_vanish(s, s);
    assert(fmul_spec(s, s) == s);
    assert(fmul_spec(-s, -s) == s);
    assert(dot_spec(u, u) == s);
    assert(s * s < (s + 1) * (s + 1)) by (nonlinear_arith)
        requires
            s >= 1,
    ;
    lemma_isqrt_unique(s * s, s);
}

} // verus!
