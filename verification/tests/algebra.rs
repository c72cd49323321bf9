use pathtracer::fx::{fadd, fdiv, fmul, fsqrt, Fx, FX_SCALE};
use pathtracer::colour::{clamp, exp, gamma_encode, Colour};
use pathtracer::vector::{cross, dot, reflect, Vec3};

fn fxi(n: i64) -> Fx {
    Fx::from_int(n)
}

fn v3(x: i64, y: i64, z: i64) -> Vec3 {
    Vec3::new(fxi(x), fxi(y), fxi(z))
}

#[test]
fn fixed_point_arithmetic() {
    let half = Fx { bits: FX_SCALE / 2 };
    assert_eq!(fmul(half, half).bits, FX_SCALE / 4);
    assert_eq!(fadd(fxi(2), fxi(3)).bits, 5 * FX_SCALE);
    assert_eq!(fdiv(fxi(1), fxi(4)).bits, FX_SCALE / 4);
    assert_eq!(fsqrt(fxi(4)).bits, 2 * FX_SCALE);
    assert_eq!(fsqrt(fxi(0)).bits, 0);
}

#[test]
fn fixed_point_saturates() {
    let big = Fx { bits: i64::MAX };
    assert_eq!(fmul(big, big).bits, i64::MAX);
    assert_eq!(fadd(big, big).bits, i64::MAX);
}

#[test]
fn clamp_restricts_to_unit_interval() {
    assert_eq!(clamp(fxi(-3)).bits, 0);
    assert_eq!(clamp(fxi(7)).bits, FX_SCALE);
    assert_eq!(clamp(Fx { bits: 12345 }).bits, 12345);
}

#[test]
fn clamp_is_idempotent() {
    for bits in [i64::MIN, -1, 0, 1, FX_SCALE / 3, FX_SCALE, FX_SCALE + 1, i64::MAX] {
        let once = clamp(Fx { bits });
        let twice = clamp(once);
        assert_eq!(once, twice);
    }
    let c = Vec3::new(Fx { bits: -5 }, Fx { bits: 99 }, Fx { bits: 2 * FX_SCALE });
    assert_eq!(c.clamp(), c.clamp().clamp());
}

#[test]
fn dot_and_cross_products() {
    let u = v3(1, 2, 3);
    let v = v3(4, -5, 6);
    assert_eq!(dot(u, v).bits, (4 - 10 + 18) * FX_SCALE);
    let c = cross(v3(1, 0, 0), v3(0, 1, 0));
    assert_eq!((c.x().bits, c.y().bits, c.z().bits), (0, 0, FX_SCALE));
}

#[test]
fn reflect_flips_normal_component_exactly_on_axis_normal() {
    let n = v3(0, 1, 0);
    let v = v3(3, 5, -2);
    let r = reflect(v, n);
    assert_eq!((r.x().bits, r.y().bits, r.z().bits), (3 * FX_SCALE, -5 * FX_SCALE, -2 * FX_SCALE));
    assert_eq!(dot(r, n).bits, -dot(v, n).bits);
}

#[test]
fn reflect_sign_invariant_near_unit_normal() {
    let n = v3(1, 1, 0).normalise();
    let v = v3(3, 5, -2);
    let r = reflect(v, n);
    let diff = dot(r, n).bits + dot(v, n).bits;
    assert!(diff.abs() <= 16, "sign invariant off by {diff}");
}

#[test]
fn normalise_gives_unit_length() {
    let v = v3(3, 4, 0);
    let n = v.normalise();
    assert_eq!((n.x().bits, n.y().bits), (629145, 838860));
    let diff = n.length().bits - FX_SCALE;
    assert!(diff.abs() <= 10, "length off by {diff}");
    let w = Vec3::new(Fx { bits: 1048 }, Fx { bits: -2096 }, Fx { bits: 314159 }).normalise();
    let diff2 = w.length().bits - FX_SCALE;
    assert!(diff2.abs() <= 10, "length off by {diff2}");
}

#[test]
fn vector_componentwise_operations() {
    let u = v3(1, 2, 3);
    let v = v3(4, 5, 6);
    let s = u.add(v);
    assert_eq!((s.x().bits, s.y().bits, s.z().bits), (5 * FX_SCALE, 7 * FX_SCALE, 9 * FX_SCALE));
    let d = v.sub(u);
    assert_eq!((d.x().bits, d.y().bits, d.z().bits), (3 * FX_SCALE, 3 * FX_SCALE, 3 * FX_SCALE));
    let m = u.mul(v);
    assert_eq!((m.x().bits, m.y().bits, m.z().bits), (4 * FX_SCALE, 10 * FX_SCALE, 18 * FX_SCALE));
    let g = u.neg();
    assert_eq!((g.x().bits, g.y().bits, g.z().bits), (-FX_SCALE, -2 * FX_SCALE, -3 * FX_SCALE));
    let h = u.scale(fxi(2));
    assert_eq!(h.y().bits, 4 * FX_SCALE);
    let q = u.div_s(fxi(2));
    assert_eq!(q.z().bits, 3 * FX_SCALE / 2);
    let mut acc = Colour::black();
    acc.add_assign(u);
    assert_eq!(acc, u);
    assert_eq!(u.length_squared().bits, 14 * FX_SCALE);
}

#[test]
fn exposure_curve_values() {
    assert_eq!(exp(Fx { bits: 0 }).bits, 0);
    assert_eq!(exp(Fx { bits: -FX_SCALE }).bits, 0);
    assert_eq!(exp(fxi(1)).bits, 907002);
}

#[test]
fn gamma_curve_fixes_endpoints() {
    assert_eq!(gamma_encode(Fx { bits: 0 }).bits, 0);
    assert_eq!(gamma_encode(Fx { bits: FX_SCALE }).bits, FX_SCALE);
}

#[test]
fn display_encoding_of_extremes() {
    let white = Colour::white().to_rgb();
    assert_eq!((white.r, white.g, white.b), (238, 238, 238));
    let black = Colour::black().to_rgb();
    assert_eq!((black.r, black.g, black.b), (0, 0, 0));
    let grey = Vec3::new(
        Fx { bits: FX_SCALE / 2 },
        Fx { bits: FX_SCALE / 2 },
        Fx { bits: FX_SCALE / 2 },
    )
    .to_rgb();
    assert_eq!(grey.r, 207);
}

#[test]
fn colour_accessors() {
    let c = v3(1, 2, 3);
    assert_eq!(c.r().bits, FX_SCALE);
    assert_eq!(c.g().bits, 2 * FX_SCALE);
    assert_eq!(c.b().bits, 3 * FX_SCALE);
}
