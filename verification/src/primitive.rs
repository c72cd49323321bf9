//! Primitive shapes, their ray intersections, and scene aggregation.
//!
//! Every intersection guard that the real-number design leaves to the
//! caller (a parallel ray, a zero denominator, a degenerate radius)
//! here yields "no intersection" instead, as the error-handling design
//! asks: a guard failure is background, not a fault.

use vstd::prelude::*;
use crate::fx::Fx;
use crate::fx::FX_SCALE;
use crate::fx::fadd;
use crate::fx::fsub;
use crate::fx::fmul;
use crate::fx::fdiv;
use crate::fx::fneg;
use crate::fx::fsqrt;
use crate::fx::fadd_spec;
use crate::fx::fsub_spec;
use crate::fx::fmul_spec;
use crate::fx::fdiv_spec;
use crate::fx::fneg_spec;
use crate::fx::fsqrt_spec;
use crate::fx::sat64;
use crate::fx::abs_i;
use crate::vector::Vec3;
use crate::vector::FX_TWO;
use crate::vector::fxs;
use crate::vector::v3s;
use crate::vector::dot;
use crate::vector::cross;
use crate::vector::dot_spec;
use crate::vector::cross_spec;
use crate::vector::vadd_spec;
use crate::vector::vsub_spec;
use crate::vector::vscale_spec;
use crate::vector::vdiv_spec;
use crate::vector::normalise_spec;
use crate::vector::length_spec;
use crate::colour::Colour;
use crate::material::Material;
use crate::texture::TexMap;
use crate::texture::tex_map_spec;

verus! {

/// The distance below which a marched ray counts as having hit, and the
/// tolerance for near-parallel plane rays (about 0.001).
pub const EPSILON_BITS: i64 = 1049;

/// The distance beyond which a marched ray counts as lost.
pub const MARCH_MAX_BITS: i64 = 1048576000;

/// The iteration budget of the ray marcher.
pub const MARCH_DEPTH: u32 = 100;

/// The tolerance for near-parallel triangle rays (about 0.0001).
pub const TRIANGLE_EPS_BITS: i64 = 105;

/// A successful ray-object intersection: distance along the ray, the
/// world-space hit point, the material, the surface colour there, and
/// the outward surface normal.
#[derive(Clone, Copy, Debug, PartialEq, Eq, Structural)]
pub struct Hit(pub Fx, pub Vec3, pub Material, pub Colour, pub Vec3);

/// Anything a ray can be intersected with.  Each implementation fixes
/// its intersection as a spec function and proves the executable code
/// returns exactly that.
pub trait Object {
    spec fn hit_spec(&self, o: Vec3, d: Vec3) -> Option<Hit>;

    fn intersect(&self, o: Vec3, d: Vec3) -> (r: Option<Hit>)
        ensures
            r == self.hit_spec(o, d),
    ;
}

pub struct Sphere {
    pub centre: Vec3,
    pub radius: Fx,
    pub material: Material,
    pub texture: TexMap,
}

/// The outward sphere normal at a surface point: the offset from the
/// centre, divided by the radius.
pub open spec fn sphere_normal_spec(s: Sphere, p: Vec3) -> Vec3 {
    vdiv_spec(vsub_spec(p, s.centre), s.radius@)
}

/// Ray-sphere intersection by the quadratic in the ray parameter:
/// a miss on a negative discriminant or when both roots lie behind the
/// origin, else the smaller non-negative root.  A zero radius or a
/// degenerate direction yields a miss.
pub open spec fn sphere_hit_spec(s: Sphere, o: Vec3, d: Vec3) -> Option<Hit> {
    let a = dot_spec(d, d);
    let to = vsub_spec(o, s.centre);
    let b = fmul_spec(FX_TWO as int, dot_spec(d, to));
    let c = fsub_spec(dot_spec(to, to), fmul_spec(s.radius@, s.radius@));
    let d2 = fsub_spec(fmul_spec(b, b), fmul_spec(fmul_spec(4 * (FX_SCALE as int), a), c));
    if s.radius@ == 0 || a == 0 || d2 < 0 {
        None
    } else {
        let sq = fsqrt_spec(d2);
        let denom = fmul_spec(FX_TWO as int, a);
        if denom == 0 {
            None
        } else {
            let res1 = fdiv_spec(fsub_spec(fneg_spec(b), sq), denom);
            let res = if res1 < 0 {
                fdiv_spec(fadd_spec(fneg_spec(b), sq), denom)
            } else {
                res1
            };
            if res < 0 {
                None
            } else {
                let hitpos = vadd_spec(o, vscale_spec(d, res));
                Some(
                    Hit(
                        fxs(res),
                        hitpos,
                        s.material,
                        tex_map_spec(s.texture, vsub_spec(hitpos, s.centre)),
                        sphere_normal_spec(s, hitpos),
                    ),
                )
            }
        }
    }
}

impl Sphere {
    fn normal(&self, p: Vec3) -> (r: Vec3)
        requires
            self.radius@ != 0,
        ensures
            r == sphere_normal_spec(*self, p),
    {
        p.sub(self.centre).div_s(self.radius)
    }
}

impl Object for Sphere {
    open spec fn hit_spec(&self, o: Vec3, d: Vec3) -> Option<Hit> {
        sphere_hit_spec(*self, o, d)
    }

    fn intersect(&self, o: Vec3, d: Vec3) -> (r: Option<Hit>) {
        let a = dot(d, d);
        let to = o.sub(self.centre);
        let b = fmul(Fx { bits: FX_TWO }, dot(d, to));
        let c = fsub(dot(to, to), fmul(self.radius, self.radius));
        let d2 = fsub(fmul(b, b), fmul(fmul(Fx { bits: 4194304 }, a), c));
        if self.radius.bits == 0 || a.bits == 0 || d2.bits < 0 {
            return None;
        }
        let sq = fsqrt(d2);
        let denom = fmul(Fx { bits: FX_TWO }, a);
        if denom.bits == 0 {
            return None;
        }
        let mut res = fdiv(fsub(fneg(b), sq), denom);
        if res.bits < 0 {
            res = fdiv(fadd(fneg(b), sq), denom);
        }
        if res.bits < 0 {
            return None;
        }
        let hitpos = o.add(d.scale(res));
        Some(
            Hit(
                res,
                hitpos,
                self.material,
                self.texture.eval(hitpos.sub(self.centre)),
                self.normal(hitpos),
            ),
        )
    }
}

pub struct Plane {
    pub point: Vec3,
    pub normal: Vec3,
    pub colour: Colour,
    pub material: Material,
}

/// Ray-plane intersection: a miss for near-parallel rays and
/// non-positive distances.
pub open spec fn plane_hit_spec(s: Plane, o: Vec3, d: Vec3) -> Option<Hit> {
    let angle = dot_spec(d, s.normal);
    if sat64(abs_i(angle)) < EPSILON_BITS as int {
        None
    } else {
        let t = fdiv_spec(dot_spec(vsub_spec(s.point, o), s.normal), angle);
        if t <= 0 {
            None
        } else {
            Some(Hit(fxs(t), vadd_spec(o, vscale_spec(d, t)), s.material, s.colour, s.normal))
        }
    }
}

impl Object for Plane {
    open spec fn hit_spec(&self, o: Vec3, d: Vec3) -> Option<Hit> {
        plane_hit_spec(*self, o, d)
    }

    fn intersect(&self, o: Vec3, d: Vec3) -> (r: Option<Hit>) {
        let angle = dot(d, self.normal);
        if angle.abs().bits < EPSILON_BITS {
            return None;
        }
        let t = fdiv(dot(self.point.sub(o), self.normal), angle);
        if t.bits <= 0 {
            return None;
        }
        Some(Hit(t, o.add(d.scale(t)), self.material, self.colour, self.normal))
    }
}

/// An axis rectangle in the plane `z = k`, bounded in `x` and `y`.
#[allow(non_camel_case_types)]
pub struct Rect_XY {
    pub x0: Fx,
    pub x1: Fx,
    pub y0: Fx,
    pub y1: Fx,
    pub k: Fx,
    pub colour: Colour,
    pub material: Material,
}

/// Fixed-plane intersection, then a bounding test in the other two
/// axes.  A ray parallel to the rectangle's plane misses, as does an
/// intersection at a non-positive distance (behind or at the origin).
pub open spec fn rect_xy_hit_spec(s: Rect_XY, o: Vec3, d: Vec3) -> Option<Hit> {
    if d.z@ == 0 {
        None
    } else {
        let t = fdiv_spec(fsub_spec(s.k@, o.z@), d.z@);
        let x = fadd_spec(o.x@, fmul_spec(t, d.x@));
        let y = fadd_spec(o.y@, fmul_spec(t, d.y@));
        if t <= 0 || x < s.x0@ || x > s.x1@ || y < s.y0@ || y > s.y1@ {
            None
        } else {
            Some(
                Hit(
                    fxs(t),
                    vadd_spec(o, vscale_spec(d, t)),
                    s.material,
                    s.colour,
                    v3s(0, 0, FX_SCALE as int),
                ),
            )
        }
    }
}

impl Object for Rect_XY {
    open spec fn hit_spec(&self, o: Vec3, d: Vec3) -> Option<Hit> {
        rect_xy_hit_spec(*self, o, d)
    }

    fn intersect(&self, o: Vec3, d: Vec3) -> (r: Option<Hit>) {
        if d.z.bits == 0 {
            return None;
        }
        let t = fdiv(fsub(self.k, o.z), d.z);
        let x = fadd(o.x, fmul(t, d.x));
        let y = fadd(o.y, fmul(t, d.y));
        if t.bits <= 0 || x.lt(self.x0) || x.gt(self.x1) || y.lt(self.y0) || y.gt(self.y1) {
            return None;
        }
        Some(
            Hit(
                t,
                o.add(d.scale(t)),
                self.material,
                self.colour,
                Vec3 { x: Fx { bits: 0 }, y: Fx { bits: 0 }, z: Fx { bits: FX_SCALE } },
            ),
        )
    }
}

pub struct Triangle {
    pub v0: Vec3,
    pub v1: Vec3,
    pub v2: Vec3,
    pub colour: Colour,
    pub material: Material,
}

/// Plane intersection via the face normal (solving `n . (o + t d) =
/// n . v0` for `t`), then three signed-volume edge tests; degenerate
/// triangles, near-parallel rays and negative distances miss.  The hit
/// carries the unit face normal.
pub open spec fn triangle_hit_spec(s: Triangle, o: Vec3, d: Vec3) -> Option<Hit> {
    let v0v1 = vsub_spec(s.v1, s.v0);
    let v0v2 = vsub_spec(s.v2, s.v0);
    let norm = cross_spec(v0v1, v0v2);
    let nd = dot_spec(norm, d);
    if dot_spec(norm, norm) <= 0 || sat64(abs_i(nd)) < TRIANGLE_EPS_BITS as int {
        None
    } else {
        let t = fdiv_spec(fsub_spec(dot_spec(norm, s.v0), dot_spec(norm, o)), nd);
        if t < 0 {
            None
        } else {
            let p = vadd_spec(o, vscale_spec(d, t));
            let in0 = dot_spec(norm, cross_spec(v0v1, vsub_spec(p, s.v0))) >= 0;
            let in1 = dot_spec(norm, cross_spec(vsub_spec(s.v2, s.v1), vsub_spec(p, s.v1))) >= 0;
            let in2 = dot_spec(norm, cross_spec(vsub_spec(s.v0, s.v2), vsub_spec(p, s.v2))) >= 0;
            if in0 && in1 && in2 {
                Some(Hit(fxs(t), p, s.material, s.colour, normalise_spec(norm)))
            } else {
                None
            }
        }
    }
}

impl Object for Triangle {
    open spec fn hit_spec(&self, o: Vec3, d: Vec3) -> Option<Hit> {
        triangle_hit_spec(*self, o, d)
    }

    fn intersect(&self, o: Vec3, d: Vec3) -> (r: Option<Hit>) {
        let v0v1 = self.v1.sub(self.v0);
        let v0v2 = self.v2.sub(self.v0);
        let norm = cross(v0v1, v0v2);
        let nn = dot(norm, norm);
        let nd = dot(norm, d);
        if nn.bits <= 0 || nd.abs().bits < TRIANGLE_EPS_BITS {
            return None;
        }
        let t = fdiv(fsub(dot(norm, self.v0), dot(norm, o)), nd);
        if t.bits < 0 {
            return None;
        }
        let p = o.add(d.scale(t));
        if dot(norm, cross(v0v1, p.sub(self.v0))).bits < 0 {
            return None;
        }
        if dot(norm, cross(self.v2.sub(self.v1), p.sub(self.v1))).bits < 0 {
            return None;
        }
        if dot(norm, cross(self.v0.sub(self.v2), p.sub(self.v2))).bits < 0 {
            return None;
        }
        Some(Hit(t, p, self.material, self.colour, norm.normalise()))
    }
}

/// An axis-aligned box between two corners.
pub struct AABB {
    pub min: Vec3,
    pub max: Vec3,
    pub colour: Colour,
    pub material: Material,
}

/// The slab state while intersecting an axis-aligned box: the entry and
/// exit parameters so far, the axes that set them (-1 for none), and
/// whether the ray can still hit.
pub open spec fn aabb_axis_spec(
    st: (int, int, int, int, bool),
    o_i: int,
    d_i: int,
    mn: int,
    mx: int,
    ax: int,
) -> (int, int, int, int, bool) {
    let (tn, tf, na, fa, ok) = st;
    if !ok {
        st
    } else if d_i == 0 {
        if o_i < mn || o_i > mx {
            (tn, tf, na, fa, false)
        } else {
            st
        }
    } else {
        let t1 = fdiv_spec(fsub_spec(mn, o_i), d_i);
        let t2 = fdiv_spec(fsub_spec(mx, o_i), d_i);
        let lo = if t1 > t2 {
            t2
        } else {
            t1
        };
        let hi = if t1 > t2 {
            t1
        } else {
            t2
        };
        let tn2 = if lo > tn {
            lo
        } else {
            tn
        };
        let na2 = if lo > tn {
            ax
        } else {
            na
        };
        let tf2 = if hi < tf {
            hi
        } else {
            tf
        };
        let fa2 = if hi < tf {
            ax
        } else {
            fa
        };
        (tn2, tf2, na2, fa2, true)
    }
}

/// The unit vector along an axis with the given sign.
pub open spec fn axis_normal_spec(ax: int, sg: int) -> Vec3 {
    if ax == 0 {
        v3s(sg, 0, 0)
    } else if ax == 1 {
        v3s(0, sg, 0)
    } else {
        v3s(0, 0, sg)
    }
}

pub open spec fn vec_axis_spec(v: Vec3, ax: int) -> int {
    if ax == 0 {
        v.x@
    } else if ax == 1 {
        v.y@
    } else {
        v.z@
    }
}

/// Slab intersection of an axis-aligned box: per-axis entry and exit
/// parameters, intersected across the axes; a miss when the interval
/// inverts, lies behind the origin, or no axis fixed the chosen
/// parameter (a degenerate direction).  The normal points out of the
/// face that set the chosen parameter.
pub open spec fn aabb_hit_spec(s: AABB, o: Vec3, d: Vec3) -> Option<Hit> {
    let st0 = (i64::MIN as int, i64::MAX as int, -1, -1, true);
    let st1 = aabb_axis_spec(st0, o.x@, d.x@, s.min.x@, s.max.x@, 0);
    let st2 = aabb_axis_spec(st1, o.y@, d.y@, s.min.y@, s.max.y@, 1);
    let st3 = aabb_axis_spec(st2, o.z@, d.z@, s.min.z@, s.max.z@, 2);
    let (tn, tf, na, fa, ok) = st3;
    if !ok || tn > tf || tf < 0 {
        None
    } else {
        let t = if tn > 0 {
            tn
        } else {
            tf
        };
        let ax = if tn > 0 {
            na
        } else {
            fa
        };
        if ax < 0 {
            None
        } else {
            let sg = if tn > 0 {
                if vec_axis_spec(d, ax) > 0 {
                    -(FX_SCALE as int)
                } else {
                    FX_SCALE as int
                }
            } else {
                if vec_axis_spec(d, ax) > 0 {
                    FX_SCALE as int
                } else {
                    -(FX_SCALE as int)
                }
            };
            Some(
                Hit(
                    fxs(t),
                    vadd_spec(o, vscale_spec(d, t)),
                    s.material,
                    s.colour,
                    axis_normal_spec(ax, sg),
                ),
            )
        }
    }
}

fn aabb_axis(st: (i64, i64, i64, i64, bool), o_i: Fx, d_i: Fx, mn: Fx, mx: Fx, ax: i64) -> (r: (
    i64,
    i64,
    i64,
    i64,
    bool,
))
    ensures
        (r.0 as int, r.1 as int, r.2 as int, r.3 as int, r.4) == aabb_axis_spec(
            (st.0 as int, st.1 as int, st.2 as int, st.3 as int, st.4),
            o_i@,
            d_i@,
            mn@,
            mx@,
            ax as int,
        ),
{
    let (tn, tf, na, fa, ok) = st;
    if !ok {
        st
    } else if d_i.bits == 0 {
        if o_i.lt(mn) || o_i.gt(mx) {
            (tn, tf, na, fa, false)
        } else {
            st
        }
    } else {
        let t1 = fdiv(fsub(mn, o_i), d_i);
        let t2 = fdiv(fsub(mx, o_i), d_i);
        let lo = if t1.gt(t2) {
            t2
        } else {
            t1
        };
        let hi = if t1.gt(t2) {
            t1
        } else {
            t2
        };
        let tn2 = if lo.bits > tn {
            lo.bits
        } else {
            tn
        };
        let na2 = if lo.bits > tn {
            ax
        } else {
            na
        };
        let tf2 = if hi.bits < tf {
            hi.bits
        } else {
            tf
        };
        let fa2 = if hi.bits < tf {
            ax
        } else {
            fa
        };
        (tn2, tf2, na2, fa2, true)
    }
}

fn axis_normal(ax: i64, sg: i64) -> (r: Vec3)
    ensures
        r == axis_normal_spec(ax as int, sg as int),
{
    let s = Fx { bits: sg };
    let zero = Fx { bits: 0 };
    if ax == 0 {
        Vec3 { x: s, y: zero, z: zero }
    } else if ax == 1 {
        Vec3 { x: zero, y: s, z: zero }
    } else {
        Vec3 { x: zero, y: zero, z: s }
    }
}

fn vec_axis(v: Vec3, ax: i64) -> (r: Fx)
    ensures
        r@ == vec_axis_spec(v, ax as int),
{
    if ax == 0 {
        v.x
    } else if ax == 1 {
        v.y
    } else {
        v.z
    }
}

impl Object for AABB {
    open spec fn hit_spec(&self, o: Vec3, d: Vec3) -> Option<Hit> {
        aabb_hit_spec(*self, o, d)
    }

    fn intersect(&self, o: Vec3, d: Vec3) -> (r: Option<Hit>) {
        let st0 = (i64::MIN, i64::MAX, -1i64, -1i64, true);
        let st1 = aabb_axis(st0, o.x, d.x, self.min.x, self.max.x, 0);
        let st2 = aabb_axis(st1, o.y, d.y, self.min.y, self.max.y, 1);
        let st3 = aabb_axis(st2, o.z, d.z, self.min.z, self.max.z, 2);
        let (tn, tf, na, fa, ok) = st3;
        if !ok || tn > tf || tf < 0 {
            return None;
        }
        let t = if tn > 0 {
            tn
        } else {
            tf
        };
        let ax = if tn > 0 {
            na
        } else {
            fa
        };
        if ax < 0 {
            return None;
        }
        let da = vec_axis(d, ax);
        let sg = if tn > 0 {
            if da.bits > 0 {
                -FX_SCALE
            } else {
                FX_SCALE
            }
        } else {
            if da.bits > 0 {
                FX_SCALE
            } else {
                -FX_SCALE
            }
        };
        let tfx = Fx { bits: t };
        Some(
            Hit(tfx, o.add(d.scale(tfx)), self.material, self.colour, axis_normal(ax, sg)),
        )
    }
}

/// The closed set of signed-distance functions a marched surface can
/// carry.
#[derive(Clone, Copy, Debug, PartialEq, Eq, Structural)]
pub enum Sdf {
    /// A ball of the given radius about the origin.
    Ball(Fx),
}

pub open spec fn sdf_spec(s: Sdf, p: Vec3) -> int {
    match s {
        Sdf::Ball(r) => fsub_spec(length_spec(p), r@),
    }
}

/// A surface intersected by ray marching a signed-distance function.
pub struct March {
    pub centre: Vec3,
    pub scale: Fx,
    pub dist: Sdf,
    pub material: Material,
    pub colour: Colour,
}

impl Sdf {
    /// Evaluate the signed distance at a point.
    pub fn eval(&self, p: Vec3) -> (r: Fx)
        ensures
            r@ == sdf_spec(*self, p),
    {
        match *self {
            Sdf::Ball(rad) => fsub(p.length(), rad),
        }
    }
}

/// The marched surface's normal, estimated by central finite
/// differences of the distance function along each axis.
pub open spec fn march_normal_spec(m: March, p: Vec3) -> Vec3 {
    let e = EPSILON_BITS as int;
    let sx = v3s(e, 0, 0);
    let sy = v3s(0, e, 0);
    let sz = v3s(0, 0, e);
    let c = m.centre;
    v3s(
        fdiv_spec(
            fsub_spec(
                sdf_spec(m.dist, vsub_spec(vadd_spec(p, sx), c)),
                sdf_spec(m.dist, vsub_spec(vsub_spec(p, sx), c)),
            ),
            2 * e,
        ),
        fdiv_spec(
            fsub_spec(
                sdf_spec(m.dist, vsub_spec(vadd_spec(p, sy), c)),
                sdf_spec(m.dist, vsub_spec(vsub_spec(p, sy), c)),
            ),
            2 * e,
        ),
        fdiv_spec(
            fsub_spec(
                sdf_spec(m.dist, vsub_spec(vadd_spec(p, sz), c)),
                sdf_spec(m.dist, vsub_spec(vsub_spec(p, sz), c)),
            ),
            2 * e,
        ),
    )
}

/// One marching recursion: step forward by the signed distance,
/// accumulating the ray parameter `t`, hit when the distance falls
/// below the epsilon, miss when it leaves the bound or the iteration
/// budget runs out.  A hit records the accumulated distance along the
/// ray, so scene aggregation ranks it correctly.
pub open spec fn march_step_spec(m: March, o: Vec3, d: Vec3, p: Vec3, t: int, k: nat) -> Option<
    Hit,
>
    decreases k,
{
    if k == 0 {
        None
    } else {
        let dist = sdf_spec(m.dist, vsub_spec(p, m.centre));
        let p2 = vadd_spec(p, vscale_spec(d, dist));
        let t2 = fadd_spec(t, dist);
        if dist < EPSILON_BITS as int {
            Some(
                Hit(
                    fxs(t2),
                    p2,
                    m.material,
                    m.colour,
                    march_normal_spec(m, vsub_spec(p2, m.centre)),
                ),
            )
        } else if dist > MARCH_MAX_BITS as int {
            None
        } else {
            march_step_spec(m, o, d, p2, t2, (k - 1) as nat)
        }
    }
}

impl March {
    /// Normal estimate at a point already taken relative to the centre.
    pub fn normal(&self, p: Vec3) -> (r: Vec3)
        ensures
            r == march_normal_spec(*self, p),
    {
        let e = Fx { bits: EPSILON_BITS };
        let zero = Fx { bits: 0 };
        let sx = Vec3 { x: e, y: zero, z: zero };
        let sy = Vec3 { x: zero, y: e, z: zero };
        let sz = Vec3 { x: zero, y: zero, z: e };
        let te = Fx { bits: 2 * EPSILON_BITS };
        Vec3 {
            x: fdiv(
                fsub(
                    self.dist.eval(p.add(sx).sub(self.centre)),
                    self.dist.eval(p.sub(sx).sub(self.centre)),
                ),
                te,
            ),
            y: fdiv(
                fsub(
                    self.dist.eval(p.add(sy).sub(self.centre)),
                    self.dist.eval(p.sub(sy).sub(self.centre)),
                ),
                te,
            ),
            z: fdiv(
                fsub(
                    self.dist.eval(p.add(sz).sub(self.centre)),
                    self.dist.eval(p.sub(sz).sub(self.centre)),
                ),
                te,
            ),
        }
    }

    fn march_step(&self, o: Vec3, d: Vec3, p: Vec3, t: Fx, k: u32) -> (r: Option<Hit>)
        ensures
            r == march_step_spec(*self, o, d, p, t@, k as nat),
        decreases k,
    {
        if k == 0 {
            None
        } else {
            let dist = self.dist.eval(p.sub(self.centre));
            let p2 = p.add(d.scale(dist));
            let t2 = fadd(t, dist);
            if dist.bits < EPSILON_BITS {
                Some(Hit(t2, p2, self.material, self.colour, self.normal(p2.sub(self.centre))))
            } else if dist.bits > MARCH_MAX_BITS {
                None
            } else {
                self.march_step(o, d, p2, t2, k - 1)
            }
        }
    }
}

impl Object for March {
    open spec fn hit_spec(&self, o: Vec3, d: Vec3) -> Option<Hit> {
        march_step_spec(*self, o, d, o, 0, MARCH_DEPTH as nat)
    }

    fn intersect(&self, o: Vec3, d: Vec3) -> (r: Option<Hit>) {
        self.march_step(o, d, o, Fx { bits: 0 }, MARCH_DEPTH)
    }
}

/// Any of the concrete shapes, as one scene element.
pub enum Shape {
    Sphere(Sphere),
    Plane(Plane),
    RectXy(Rect_XY),
    Triangle(Triangle),
    Aabb(AABB),
    March(March),
}

pub open spec fn shape_hit_spec(s: Shape, o: Vec3, d: Vec3) -> Option<Hit> {
    match s {
        Shape::Sphere(v) => sphere_hit_spec(v, o, d),
        Shape::Plane(v) => plane_hit_spec(v, o, d),
        Shape::RectXy(v) => rect_xy_hit_spec(v, o, d),
        Shape::Triangle(v) => triangle_hit_spec(v, o, d),
        Shape::Aabb(v) => aabb_hit_spec(v, o, d),
        Shape::March(v) => march_step_spec(v, o, d, o, 0, MARCH_DEPTH as nat),
    }
}

impl Object for Shape {
    open spec fn hit_spec(&self, o: Vec3, d: Vec3) -> Option<Hit> {
        shape_hit_spec(*self, o, d)
    }

    fn intersect(&self, o: Vec3, d: Vec3) -> (r: Option<Hit>) {
        match self {
            Shape::Sphere(v) => v.intersect(o, d),
            Shape::Plane(v) => v.intersect(o, d),
            Shape::RectXy(v) => v.intersect(o, d),
            Shape::Triangle(v) => v.intersect(o, d),
            Shape::Aabb(v) => v.intersect(o, d),
            Shape::March(v) => v.intersect(o, d),
        }
    }
}

/// Keep the nearer of an existing best hit and a candidate; a tie keeps
/// the existing one, so earlier scene members win ties.
pub open spec fn merge_hit_spec(prev: Option<Hit>, cand: Option<Hit>) -> Option<Hit> {
    match cand {
        None => prev,
        Some(c) => match prev {
            None => Some(c),
            Some(p) => if c.0@ < p.0@ {
                Some(c)
            } else {
                Some(p)
            },
        },
    }
}

/// The nearest hit among the first `i` scene members.
pub open spec fn scene_hit_upto(s: Seq<Shape>, o: Vec3, d: Vec3, i: int) -> Option<Hit>
    decreases i,
{
    if i <= 0 {
        None
    } else {
        merge_hit_spec(scene_hit_upto(s, o, d, i - 1), shape_hit_spec(s[i - 1], o, d))
    }
}

/// A scene: an ordered collection of shapes, intersected by keeping the
/// nearest member hit.
impl Object for Vec<Shape> {
    open spec fn hit_spec(&self, o: Vec3, d: Vec3) -> Option<Hit> {
        scene_hit_upto(self@, o, d, self@.len() as int)
    }

    #[verifier::rlimit(100)]
    fn intersect(&self, o: Vec3, d: Vec3) -> (r: Option<Hit>) {
        let mut hit: Option<Hit> = None;
        let mut i: usize = 0;
        while i < self.len()
            invariant
                i <= self@.len(),
                hit == scene_hit_upto(self@, o, d, i as int),
            decreases self@.len() - i,
        {
            let cand = self[i].intersect(o, d);
            match cand {
                None => {},
                Some(c) => {
                    match hit {
                        None => {
                            hit = Some(c);
                        },
                        Some(p) => {
                            if c.0.lt(p.0) {
                                hit = Some(c);
                            }
                        },
                    }
                },
            }
            proof {
                assert(scene_hit_upto(self@, o, d, i as int + 1) == merge_hit_spec(
                    scene_hit_upto(self@, o, d, i as int),
                    shape_hit_spec(self@[i as int], o, d),
                ));
            }
            i = i + 1;
        }
        hit
    }
}

} // verus!
