use pathtracer::fx::{Fx, FX_SCALE, PI_BITS};
use pathtracer::vector::{cross, dot, Vec3};
use pathtracer::colour::Colour;
use pathtracer::material::{glass, lambert, light, metal, mirror, random_float, refract, Brdf};
use pathtracer::primitive::{Shape, Sphere};
use pathtracer::render::{bg_colour, directions, trace, Render, SimpleCamera};
use pathtracer::texture::TexMap;

fn fxi(n: i64) -> Fx {
    Fx::from_int(n)
}

fn v3(x: i64, y: i64, z: i64) -> Vec3 {
    Vec3::new(fxi(x), fxi(y), fxi(z))
}

#[test]
fn rng_is_deterministic_from_seed() {
    let mut s1: u32 = 4839;
    let a1 = random_float(&mut s1);
    let b1 = random_float(&mut s1);
    let mut s2: u32 = 4839;
    let a2 = random_float(&mut s2);
    let b2 = random_float(&mut s2);
    assert_eq!(a1, a2);
    assert_eq!(b1, b2);
    assert_eq!(s1, s2);
    assert_eq!(a1.bits, 545117);
    assert_eq!(b1.bits, 880204);
}

#[test]
fn rng_stays_in_unit_interval() {
    let mut s: u32 = 1;
    for _ in 0..1000 {
        let r = random_float(&mut s);
        assert!(0 <= r.bits && r.bits < FX_SCALE);
    }
}

#[test]
fn material_constructors() {
    let m = lambert();
    assert_eq!(m.albedo.bits, 943718);
    assert_eq!(m.prob.bits, 333772);
    assert_eq!(m.brdf, Brdf::Lambert);
    assert!(!m.cos);
    assert_eq!(m.emission.bits, 0);
    assert_eq!(light().emission.bits, 1038090);
    assert_eq!(mirror().brdf, Brdf::Mirror);
    assert_eq!(glass().brdf, Brdf::Glass);
    let mt = metal();
    assert_eq!(mt.brdf, Brdf::Metal);
    assert!(mt.cos);
}

#[test]
fn refract_straight_on_passes_through() {
    let d = v3(0, 0, -1);
    let n = v3(0, 0, 1);
    let r = refract(d, n, Fx { bits: 734003 });
    assert_eq!((r.x().bits, r.y().bits, r.z().bits), (0, 0, -FX_SCALE));
}

#[test]
fn mirror_sample_leaves_seed_alone() {
    let mut seed: u32 = 77;
    let m = mirror();
    let out = m.sample(v3(0, 1, 0), v3(1, -1, 0).normalise(), &mut seed);
    assert_eq!(seed, 77);
    assert!(out.y().bits > 0);
}

#[test]
fn trace_depth_zero_returns_white() {
    let scene: Vec<Shape> = vec![Shape::Sphere(Sphere {
        centre: v3(0, 0, 0),
        radius: fxi(1),
        material: lambert(),
        texture: TexMap::Constant(Colour::white()),
    })];
    let mut seed: u32 = 4839;
    let c = trace(v3(0, 0, 5), v3(0, 0, -1), &scene, 0, &mut seed);
    assert_eq!(c, Colour::white());
    assert_eq!(seed, 4839);
    let empty: Vec<Shape> = vec![];
    let c2 = trace(v3(9, 9, 9), v3(0, 1, 0), &empty, 0, &mut seed);
    assert_eq!(c2, Colour::white());
}

#[test]
fn trace_miss_returns_sky_colour() {
    let empty: Vec<Shape> = vec![];
    let up = v3(0, 1, 0);
    let mut seed: u32 = 4839;
    let c = trace(v3(0, 0, 0), up, &empty, 4, &mut seed);
    assert_eq!(c, bg_colour(up));
    assert_eq!((c.x().bits, c.y().bits, c.z().bits), (419430, 419430, 419430));
    assert_eq!(seed, 4839);
}

#[test]
fn trace_single_emissive_sphere_one_bounce() {
    let scene: Vec<Shape> = vec![Shape::Sphere(Sphere {
        centre: v3(0, 0, 0),
        radius: fxi(1),
        material: light(),
        texture: TexMap::Constant(Colour::white()),
    })];
    let mut seed: u32 = 4839;
    let c = trace(v3(0, 0, 5), v3(0, 0, -1), &scene, 1, &mut seed);
    // emission + white terminal reflectance, normalised by 1/(pi * prob):
    // (0.99 + 1) * 1.0000019... in fixed point.
    assert_eq!((c.x().bits, c.y().bits, c.z().bits), (2086667, 2086667, 2086667));
}

#[test]
fn camera_basis_is_orthogonal() {
    let looking = v3(0, 0, 1);
    let global_up = v3(0, 1, 0);
    let (side, up) = directions(looking, global_up);
    assert_eq!((side.x().bits, side.y().bits, side.z().bits), (FX_SCALE, 0, 0));
    assert_eq!((up.x().bits, up.y().bits, up.z().bits), (0, FX_SCALE, 0));
    assert_eq!(dot(side, looking).bits, 0);
    assert_eq!(dot(up, looking).bits, 0);
    assert_eq!(cross(looking, side), up);
}

#[test]
fn render_produces_deterministic_grid() {
    let cam = SimpleCamera {
        fov: Fx { bits: PI_BITS / 2 },
        position: v3(0, 0, 0),
        looking: v3(0, 0, 1),
        global_up: v3(0, 1, 0),
    };
    let scene: Vec<Shape> = vec![];
    let g1 = cam.render(&scene, 2, 2, 1);
    assert_eq!(g1.len(), 2);
    assert_eq!(g1[0].len(), 2);
    assert_eq!(g1[1].len(), 2);
    let scene2: Vec<Shape> = vec![];
    let g2 = cam.render(&scene2, 2, 2, 1);
    assert_eq!(g1, g2);
}

#[test]
fn render_sees_an_emissive_sphere() {
    let cam = SimpleCamera {
        fov: Fx { bits: PI_BITS / 2 },
        position: v3(0, 0, 5),
        looking: v3(0, 0, -1),
        global_up: v3(0, 1, 0),
    };
    let scene: Vec<Shape> = vec![Shape::Sphere(Sphere {
        centre: v3(0, 0, 0),
        radius: fxi(4),
        material: light(),
        texture: TexMap::Constant(Colour::white()),
    })];
    let grid = cam.render(&scene, 4, 4, 2);
    assert_eq!(grid.len(), 4);
    // the central pixels look straight at the light, whose radiance is
    // at least the emission term 0.99 before normalisation
    let centre = grid[1][1];
    assert!(centre.r >= 236 && centre.g >= 236 && centre.b >= 236);
}

#[test]
fn glass_sample_refracts_head_on() {
    let mut seed: u32 = 4839;
    let g = glass();
    let n = v3(0, 0, 1);
    let d = v3(0, 0, -1);
    let out = g.sample(n, d, &mut seed);
    assert_eq!((out.x().bits, out.y().bits, out.z().bits), (0, 0, -FX_SCALE));
    assert_ne!(seed, 4839);
}
