//! Materials and their scattering functions, and the deterministic
//! pseudo-random generator that drives the stochastic ones.

use vstd::prelude::*;
use crate::fx::Fx;
use crate::fx::FX_SCALE;
use crate::fx::PI_BITS;
use crate::fx::fadd;
use crate::fx::fsub;
use crate::fx::fmul;
use crate::fx::fdiv;
use crate::fx::fneg;
use crate::fx::fsqrt;
use crate::fx::pi;
use crate::fx::cos_fx;
use crate::fx::sin_fx;
use crate::fx::cos_spec;
use crate::fx::sin_spec;
use crate::fx::fadd_spec;
use crate::fx::fsub_spec;
use crate::fx::fmul_spec;
use crate::fx::fdiv_spec;
use crate::fx::fneg_spec;
use crate::fx::fsqrt_spec;
use crate::fx::sat64;
use crate::fx::abs_i;
use crate::fx::lemma_fmul_nonneg_le;
use crate::colour::pow_fx;
use crate::colour::pow_fx_spec;
use crate::vector::Vec3;
use crate::vector::FX_TWO;
use crate::vector::fxs;
use crate::vector::v3s;
use crate::vector::dot;
use crate::vector::cross;
use crate::vector::reflect;
use crate::vector::dot_spec;
use crate::vector::cross_spec;
use crate::vector::reflect_spec;
use crate::vector::vsub_spec;
use crate::vector::vadd_spec;
use crate::vector::vscale_spec;
use crate::vector::vneg_spec;
use crate::vector::normalise_spec;

verus! {

/// One xorshift step of the generator word.
pub open spec fn xorshift_spec(x0: u32) -> u32 {
    let a = x0 ^ (x0 << 13);
    let b = a ^ (a >> 17);
    b ^ (b << 5)
}

/// The uniform draw carried by a generator word: its low 23 bits, read
/// as a fixed-point value in `[0, 1)`.
pub open spec fn rand_bits_spec(x: u32) -> int {
    ((x & 0x007FFFFF) >> 3) as int
}

/// Advance the generator and return a uniform fixed-point value in
/// `[0, 1)`.  The result is a pure function of the prior word, so a
/// render is replayable from its seed.
pub fn random_float(seed: &mut u32) -> (r: Fx)
    ensures
        *final(seed) == xorshift_spec(*old(seed)),
        r@ == rand_bits_spec(*final(seed)),
        0 <= r@ < FX_SCALE as int,
{
    let mut x = *seed;
    x = x ^ (x << 13u32);
    x = x ^ (x >> 17u32);
    x = x ^ (x << 5u32);
    *seed = x;
    let m: u32 = (x & 0x007FFFFF) >> 3;
    proof {
        assert(((x & 0x007FFFFF) >> 3) < 1048576) by (bit_vector);
    }
    Fx { bits: m as i64 }
}

/// The closed set of scattering functions.
#[derive(Clone, Copy, Debug, PartialEq, Eq, Structural)]
pub enum Brdf {
    Lambert,
    Mirror,
    Metal,
    Glass,
}

/// An immutable description of how a surface scatters light.
#[derive(Clone, Copy, Debug, PartialEq, Eq, Structural)]
pub struct Material {
    pub albedo: Fx,
    pub brdf: Brdf,
    pub prob: Fx,
    /// Whether the albedo must be weighted by the incidence cosine.
    pub cos: bool,
    pub emission: Fx,
}

/// Refraction by Snell's law with the given ratio, falling back to
/// reflection past the critical angle.
pub open spec fn refract_spec(v: Vec3, n: Vec3, ratio: int) -> Vec3 {
    let dt = dot_spec(v, n);
    let disc = fsub_spec(
        FX_SCALE as int,
        fmul_spec(fmul_spec(ratio, ratio), fsub_spec(FX_SCALE as int, fmul_spec(dt, dt))),
    );
    if disc > 0 {
        vsub_spec(
            vscale_spec(vsub_spec(v, vscale_spec(n, dt)), ratio),
            vscale_spec(n, fsqrt_spec(disc)),
        )
    } else {
        reflect_spec(v, n)
    }
}

/// Refract an incoming vector in a normal with the given ratio
/// (`n1/n2` from Snell's law); `v` and `n` should be normalised.
pub fn refract(v: Vec3, n: Vec3, ratio: Fx) -> (r: Vec3)
    ensures
        r == refract_spec(v, n, ratio@),
{
    let dt = dot(v, n);
    let one = Fx { bits: FX_SCALE };
    let disc = fsub(one, fmul(fmul(ratio, ratio), fsub(one, fmul(dt, dt))));
    if disc.bits > 0 {
        v.sub(n.scale(dt)).scale(ratio).sub(n.scale(fsqrt(disc)))
    } else {
        reflect(v, n)
    }
}

/// Schlick's approximation of Fresnel reflectance:
/// `r0 + (1 - r0)(1 - cos)^5` with `r0 = ((1 - ratio)/(1 + ratio))^2`.
pub open spec fn schlick_spec(cosv: int, ratio: int) -> int {
    let q = fdiv_spec(fsub_spec(FX_SCALE as int, ratio), fadd_spec(FX_SCALE as int, ratio));
    let r0 = fmul_spec(q, q);
    fadd_spec(
        r0,
        fmul_spec(fsub_spec(FX_SCALE as int, r0), pow_fx_spec(fsub_spec(FX_SCALE as int, cosv), 5)),
    )
}

pub fn schlick(cosv: Fx, ratio: Fx) -> (r: Fx)
    requires
        fadd_spec(FX_SCALE as int, ratio@) != 0,
    ensures
        r@ == schlick_spec(cosv@, ratio@),
{
    let one = Fx { bits: FX_SCALE };
    let q = fdiv(fsub(one, ratio), fadd(one, ratio));
    let r0 = fmul(q, q);
    fadd(r0, fmul(fsub(one, r0), pow_fx(fsub(one, cosv), 5)))
}

/// A mirror reflects every ray.
pub open spec fn brdf_mirror_spec(n: Vec3, d: Vec3) -> Vec3 {
    reflect_spec(d, n)
}

pub fn brdf_mirror(n: Vec3, d: Vec3, _seed: &mut u32) -> (r: Vec3)
    ensures
        r == brdf_mirror_spec(n, d),
        *final(_seed) == *old(_seed),
{
    reflect(d, n)
}

/// The tangent axis used to build an orthonormal frame around a normal:
/// chosen from the larger of the first two components to avoid a
/// near-degenerate cross product, and normalised; a degenerate normal
/// falls back to the first axis.
pub open spec fn lambert_tangent_spec(n: Vec3) -> Vec3 {
    if sat64(abs_i(n.x@)) > sat64(abs_i(n.y@)) {
        let t = v3s(n.z@, 0, fneg_spec(n.x@));
        if dot_spec(t, t) > 0 {
            normalise_spec(t)
        } else {
            v3s(FX_SCALE as int, 0, 0)
        }
    } else {
        let t = v3s(0, fneg_spec(n.z@), n.y@);
        if dot_spec(t, t) > 0 {
            normalise_spec(t)
        } else {
            v3s(FX_SCALE as int, 0, 0)
        }
    }
}

fn lambert_tangent(n: Vec3) -> (r: Vec3)
    ensures
        r == lambert_tangent_spec(n),
{
    let ax = n.x().abs();
    let ay = n.y().abs();
    let zero = Fx { bits: 0 };
    let t = if ax.gt(ay) {
        Vec3::new(n.z(), zero, fneg(n.x()))
    } else {
        Vec3::new(zero, fneg(n.z()), n.y())
    };
    let ls = dot(t, t);
    if ls.bits > 0 {
        t.normalise()
    } else {
        Vec3::new(Fx { bits: FX_SCALE }, zero, zero)
    }
}

/// A cosine-weighted hemisphere sample around the normal `n`: the
/// azimuth is drawn uniformly, the second draw is the elevation cosine,
/// and the local sample is carried into world space by the frame
/// `(nb, n, nt)`.  The incoming direction is ignored.
pub open spec fn brdf_lambert_spec(n: Vec3, seed: u32) -> (Vec3, u32) {
    let s1 = xorshift_spec(seed);
    let az = fmul_spec(fmul_spec(rand_bits_spec(s1), PI_BITS as int), FX_TWO as int);
    let s2 = xorshift_spec(s1);
    let y = rand_bits_spec(s2);
    let sin_e = fsqrt_spec(fsub_spec(FX_SCALE as int, fmul_spec(y, y)));
    let rv = v3s(fmul_spec(sin_e, cos_spec(az)), y, fmul_spec(sin_e, sin_spec(az)));
    let nt = lambert_tangent_spec(n);
    let nb = cross_spec(n, nt);
    (
        v3s(
            fadd_spec(
                fadd_spec(fmul_spec(rv.x@, nb.x@), fmul_spec(rv.y@, n.x@)),
                fmul_spec(rv.z@, nt.x@),
            ),
            fadd_spec(
                fadd_spec(fmul_spec(rv.x@, nb.y@), fmul_spec(rv.y@, n.y@)),
                fmul_spec(rv.z@, nt.y@),
            ),
            fadd_spec(
                fadd_spec(fmul_spec(rv.x@, nb.z@), fmul_spec(rv.y@, n.z@)),
                fmul_spec(rv.z@, nt.z@),
            ),
        ),
        s2,
    )
}

pub fn brdf_lambert(n: Vec3, _d: Vec3, seed: &mut u32) -> (r: Vec3)
    ensures
        (r, *final(seed)) == brdf_lambert_spec(n, *old(seed)),
{
    let r1 = random_float(seed);
    let azp = fmul(r1, pi());
    proof {
        lemma_fmul_nonneg_le(r1@, PI_BITS as int);
        assert(azp@ * (FX_TWO as int) == (FX_SCALE as int) * (2 * azp@)) by (nonlinear_arith)
            requires
                FX_TWO as int == 2 * (FX_SCALE as int),
        ;
        vstd::arithmetic::div_mod::lemma_div_multiples_vanish(2 * azp@, FX_SCALE as int);
        assert(abs_i(azp@) * abs_i(FX_TWO as int) == azp@ * (FX_TWO as int));
    }
    let az = fmul(azp, Fx { bits: FX_TWO });
    let cz = cos_fx(az);
    let sz = sin_fx(az);
    let y = random_float(seed);
    proof {
        lemma_fmul_nonneg_le(y@, y@);
    }
    let one = Fx { bits: FX_SCALE };
    let sin_e = fsqrt(fsub(one, fmul(y, y)));
    let rv = Vec3::new(fmul(sin_e, cz), y, fmul(sin_e, sz));
    let nt = lambert_tangent(n);
    let nb = cross(n, nt);
    Vec3::new(
        fadd(fadd(fmul(rv.x(), nb.x()), fmul(rv.y(), n.x())), fmul(rv.z(), nt.x())),
        fadd(fadd(fmul(rv.x(), nb.y()), fmul(rv.y(), n.y())), fmul(rv.z(), nt.y())),
        fadd(fadd(fmul(rv.x(), nb.z()), fmul(rv.y(), n.z())), fmul(rv.z(), nt.z())),
    )
}

/// A glossy reflector: the specular reflection blended with 0.4 of a
/// hemisphere sample, renormalised (the reflection alone when the blend
/// degenerates to zero length).
pub open spec fn brdf_metal_spec(n: Vec3, d: Vec3, seed: u32) -> (Vec3, u32) {
    let (l, s1) = brdf_lambert_spec(n, seed);
    let m = vadd_spec(reflect_spec(d, n), vscale_spec(l, 419430));
    if dot_spec(m, m) > 0 {
        (normalise_spec(m), s1)
    } else {
        (reflect_spec(d, n), s1)
    }
}

pub fn brdf_metal(n: Vec3, d: Vec3, seed: &mut u32) -> (r: Vec3)
    ensures
        (r, *final(seed)) == brdf_metal_spec(n, d, *old(seed)),
{
    let l = brdf_lambert(n, d, seed);
    let m = reflect(d, n).add(l.scale(Fx { bits: 419430 }));
    let ls = dot(m, m);
    if ls.bits > 0 {
        m.normalise()
    } else {
        reflect(d, n)
    }
}

/// The sign of the incidence cosine, at the fixed-point scale.
pub open spec fn signum_spec(c: int) -> int {
    if c > 0 {
        FX_SCALE as int
    } else if c < 0 {
        -(FX_SCALE as int)
    } else {
        0
    }
}

/// Glass: one uniform draw against Schlick reflectance chooses between
/// reflection and refraction, on either side of the surface.
pub open spec fn brdf_glass_spec(n: Vec3, d: Vec3, seed: u32) -> (Vec3, u32) {
    let cosv = dot_spec(d, vneg_spec(n));
    let s1 = xorshift_spec(seed);
    let rand = rand_bits_spec(s1);
    let refr = 734003;
    if cosv > 0 {
        if rand > schlick_spec(cosv, refr) {
            (refract_spec(d, n, refr), s1)
        } else {
            (reflect_spec(d, n), s1)
        }
    } else {
        if rand > schlick_spec(fmul_spec(fneg_spec(cosv), refr), refr) {
            (
                refract_spec(
                    d,
                    vscale_spec(n, signum_spec(cosv)),
                    fdiv_spec(FX_SCALE as int, refr),
                ),
                s1,
            )
        } else {
            (reflect_spec(d, n), s1)
        }
    }
}

pub fn brdf_glass(n: Vec3, d: Vec3, seed: &mut u32) -> (r: Vec3)
    ensures
        (r, *final(seed)) == brdf_glass_spec(n, d, *old(seed)),
{
    let cosv = dot(d, n.neg());
    let refr = Fx { bits: 734003 };
    let one = Fx { bits: FX_SCALE };
    let rand = random_float(seed);
    if cosv.bits > 0 {
        if rand.gt(schlick(cosv, refr)) {
            refract(d, n, refr)
        } else {
            reflect(d, n)
        }
    } else {
        if rand.gt(schlick(fmul(fneg(cosv), refr), refr)) {
            let sg = if cosv.bits < 0 {
                Fx { bits: -FX_SCALE }
            } else {
                Fx { bits: 0 }
            };
            refract(d, n.scale(sg), fdiv(one, refr))
        } else {
            reflect(d, n)
        }
    }
}

/// Sample an outgoing direction from a scattering function.
pub open spec fn sample_spec(b: Brdf, n: Vec3, d: Vec3, seed: u32) -> (Vec3, u32) {
    match b {
        Brdf::Lambert => brdf_lambert_spec(n, seed),
        Brdf::Mirror => (brdf_mirror_spec(n, d), seed),
        Brdf::Metal => brdf_metal_spec(n, d, seed),
        Brdf::Glass => brdf_glass_spec(n, d, seed),
    }
}

impl Material {
    /// Sample this material's scattering function.
    pub fn sample(&self, n: Vec3, d: Vec3, seed: &mut u32) -> (r: Vec3)
        ensures
            (r, *final(seed)) == sample_spec(self.brdf, n, d, *old(seed)),
    {
        match self.brdf {
            Brdf::Lambert => brdf_lambert(n, d, seed),
            Brdf::Mirror => brdf_mirror(n, d, seed),
            Brdf::Metal => brdf_metal(n, d, seed),
            Brdf::Glass => brdf_glass(n, d, seed),
        }
    }
}

/// The shared sampling probability density `1/pi`, at the fixed-point
/// scale.
pub open spec fn inv_pi_spec() -> int {
    fdiv_spec(FX_SCALE as int, PI_BITS as int)
}

fn inv_pi() -> (r: Fx)
    ensures
        r@ == inv_pi_spec(),
{
    fdiv(Fx { bits: FX_SCALE }, pi())
}

/// A matte diffuse material.
pub fn lambert() -> (m: Material)
    ensures
        m == (Material {
            albedo: fxs(943718),
            brdf: Brdf::Lambert,
            prob: fxs(inv_pi_spec()),
            cos: false,
            emission: fxs(0),
        }),
{
    Material {
        albedo: Fx { bits: 943718 },
        brdf: Brdf::Lambert,
        prob: inv_pi(),
        cos: false,
        emission: Fx { bits: 0 },
    }
}

/// A perfect mirror.
pub fn mirror() -> (m: Material)
    ensures
        m == (Material {
            albedo: fxs(FX_SCALE as int),
            brdf: Brdf::Mirror,
            prob: fxs(inv_pi_spec()),
            cos: false,
            emission: fxs(0),
        }),
{
    Material {
        albedo: Fx { bits: FX_SCALE },
        brdf: Brdf::Mirror,
        prob: inv_pi(),
        cos: false,
        emission: Fx { bits: 0 },
    }
}

/// An emissive surface.
pub fn light() -> (m: Material)
    ensures
        m == (Material {
            albedo: fxs(FX_SCALE as int),
            brdf: Brdf::Lambert,
            prob: fxs(inv_pi_spec()),
            cos: false,
            emission: fxs(1038090),
        }),
{
    Material {
        albedo: Fx { bits: FX_SCALE },
        brdf: Brdf::Lambert,
        prob: inv_pi(),
        cos: false,
        emission: Fx { bits: 1038090 },
    }
}

/// A dielectric that refracts and reflects.
pub fn glass() -> (m: Material)
    ensures
        m == (Material {
            albedo: fxs(FX_SCALE as int),
            brdf: Brdf::Glass,
            prob: fxs(inv_pi_spec()),
            cos: false,
            emission: fxs(0),
        }),
{
    Material {
        albedo: Fx { bits: FX_SCALE },
        brdf: Brdf::Glass,
        prob: inv_pi(),
        cos: false,
        emission: Fx { bits: 0 },
    }
}

/// A glossy metal, with cosine-weighted albedo.
pub fn metal() -> (m: Material)
    ensures
        m == (Material {
            albedo: fxs(943718),
            brdf: Brdf::Metal,
            prob: fxs(inv_pi_spec()),
            cos: true,
            emission: fxs(0),
        }),
{
    Material {
        albedo: Fx { bits: 943718 },
        brdf: Brdf::Metal,
        prob: inv_pi(),
        cos: true,
        emission: Fx { bits: 0 },
    }
}

} // verus!
