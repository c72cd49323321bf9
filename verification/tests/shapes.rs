use pathtracer::fx::{Fx, FX_SCALE};
use pathtracer::vector::Vec3;
use pathtracer::colour::Colour;
use pathtracer::material::lambert;
use pathtracer::primitive::{Object, Plane, Rect_XY, Sdf, Shape, Sphere, Triangle, AABB, March};
use pathtracer::texture::{TexMap, TextCheck, TextConstant, Texture};

fn fxi(n: i64) -> Fx {
    Fx::from_int(n)
}

fn v3(x: i64, y: i64, z: i64) -> Vec3 {
    Vec3::new(fxi(x), fxi(y), fxi(z))
}

fn unit_sphere() -> Sphere {
    Sphere {
        centre: v3(0, 0, 0),
        radius: fxi(1),
        material: lambert(),
        texture: TexMap::Constant(Colour::white()),
    }
}

#[test]
fn sphere_hit_from_outside() {
    let s = unit_sphere();
    let hit = s.intersect(v3(0, 0, 5), v3(0, 0, -1)).expect("ray aimed at sphere must hit");
    assert_eq!(hit.0.bits, 4 * FX_SCALE);
    assert_eq!((hit.4.x().bits, hit.4.y().bits, hit.4.z().bits), (0, 0, FX_SCALE));
    assert_eq!((hit.1.x().bits, hit.1.y().bits, hit.1.z().bits), (0, 0, FX_SCALE));
    assert_eq!(hit.3, Colour::white());
}

#[test]
fn sphere_miss() {
    let s = unit_sphere();
    assert!(s.intersect(v3(0, 0, 5), v3(0, 1, 0)).is_none());
    assert!(s.intersect(v3(0, 0, 5), v3(0, 0, 1)).is_none());
}

#[test]
fn plane_hit_at_unit_distance() {
    let p = Plane {
        point: v3(0, -1, 0),
        normal: v3(0, 1, 0),
        colour: Colour::white(),
        material: lambert(),
    };
    let hit = p.intersect(v3(0, 0, 0), v3(0, -1, 0)).expect("downward ray must hit floor");
    assert_eq!(hit.0.bits, FX_SCALE);
    assert!(p.intersect(v3(0, 0, 0), v3(1, 0, 0)).is_none());
    assert!(p.intersect(v3(0, 0, 0), v3(0, 1, 0)).is_none());
}

#[test]
fn rect_xy_hit_inside_bounds() {
    let r = Rect_XY {
        x0: fxi(3),
        x1: fxi(5),
        y0: fxi(1),
        y1: fxi(3),
        k: fxi(-2),
        colour: Colour::white(),
        material: lambert(),
    };
    let hit = r.intersect(v3(4, 2, 0), v3(0, 0, -1)).expect("ray into rectangle must hit");
    assert_eq!(hit.0.bits, 2 * FX_SCALE);
    assert_eq!((hit.4.x().bits, hit.4.y().bits, hit.4.z().bits), (0, 0, FX_SCALE));
    assert!(r.intersect(v3(9, 2, 0), v3(0, 0, -1)).is_none());
    assert!(r.intersect(v3(4, 2, 0), v3(0, 0, 1)).is_none());
}

#[test]
fn triangle_hit_on_surface() {
    let t = Triangle {
        v0: v3(-1, -1, 0),
        v1: v3(0, 1, 0),
        v2: v3(1, -1, 0),
        colour: Colour::white(),
        material: lambert(),
    };
    let hit = t.intersect(v3(0, 0, 0), v3(0, 0, 1)).expect("origin inside triangle must hit");
    assert_eq!(hit.0.bits, 0);
    assert_eq!((hit.4.x().bits, hit.4.y().bits, hit.4.z().bits), (0, 0, -FX_SCALE));
}

#[test]
fn triangle_hit_from_a_distance() {
    let t = Triangle {
        v0: v3(-1, -1, 0),
        v1: v3(0, 1, 0),
        v2: v3(1, -1, 0),
        colour: Colour::white(),
        material: lambert(),
    };
    let hit = t.intersect(v3(0, 0, 5), v3(0, 0, -1)).expect("ray aimed at triangle must hit");
    assert_eq!(hit.0.bits, 5 * FX_SCALE);
    assert_eq!((hit.1.x().bits, hit.1.y().bits, hit.1.z().bits), (0, 0, 0));
    assert_eq!((hit.4.x().bits, hit.4.y().bits, hit.4.z().bits), (0, 0, -FX_SCALE));
}

#[test]
fn aabb_hit_gives_face_normal() {
    let b = AABB {
        min: v3(-1, -1, -1),
        max: v3(1, 1, 1),
        colour: Colour::white(),
        material: lambert(),
    };
    let hit = b.intersect(v3(-5, 0, 0), v3(1, 0, 0)).expect("ray into box must hit");
    assert_eq!(hit.0.bits, 4 * FX_SCALE);
    assert_eq!((hit.4.x().bits, hit.4.y().bits, hit.4.z().bits), (-FX_SCALE, 0, 0));
    assert!(b.intersect(v3(-5, 3, 0), v3(1, 0, 0)).is_none());
    assert!(b.intersect(v3(-5, 0, 0), v3(-1, 0, 0)).is_none());
}

#[test]
fn march_hits_ball() {
    let m = March {
        centre: v3(0, 0, 0),
        scale: fxi(1),
        dist: Sdf::Ball(fxi(1)),
        material: lambert(),
        colour: Colour::white(),
    };
    let hit = m.intersect(v3(0, 0, 5), v3(0, 0, -1)).expect("marched ray must converge");
    assert_eq!(hit.0.bits, 4 * FX_SCALE);
    assert_eq!((hit.1.x().bits, hit.1.y().bits, hit.1.z().bits), (0, 0, FX_SCALE));
    assert_eq!((hit.4.x().bits, hit.4.y().bits, hit.4.z().bits), (0, 0, FX_SCALE));
    assert!(m.intersect(v3(0, 0, 5), v3(0, 0, 1)).is_none());
}

#[test]
fn scene_keeps_nearest_hit() {
    let far = Shape::Sphere(unit_sphere());
    let near = Shape::Sphere(Sphere {
        centre: v3(0, 0, 3),
        radius: fxi(1),
        material: lambert(),
        texture: TexMap::Constant(Colour::black()),
    });
    let scene: Vec<Shape> = vec![far, near];
    let hit = scene.intersect(v3(0, 0, 5), v3(0, 0, -1)).expect("scene must hit");
    assert_eq!(hit.0.bits, FX_SCALE);
    assert_eq!(hit.3, Colour::black());
    let empty: Vec<Shape> = vec![];
    assert!(empty.intersect(v3(0, 0, 5), v3(0, 0, -1)).is_none());
}

#[test]
fn constant_texture_ignores_coordinates() {
    let t = TextConstant { col: Colour::white() };
    assert_eq!(t.value(fxi(3), fxi(-7)), Colour::white());
}

#[test]
fn checker_texture_alternates() {
    let a = Colour::white();
    let b = Colour::black();
    let t = TextCheck { col1: a, col2: b };
    let half = Fx { bits: FX_SCALE / 2 };
    assert_eq!(t.value(half, half), a);
    assert_eq!(t.value(Fx { bits: 0 }, Fx { bits: 0 }), b);
    let m = TexMap::Check(a, b);
    assert_eq!(m.eval(Vec3::new(half, half, Fx { bits: 0 })), a);
    assert_eq!(m.eval(v3(0, 0, 0)), b);
}

#[test]
fn degenerate_shapes_miss() {
    let zero_radius = Sphere {
        centre: v3(0, 0, 0),
        radius: Fx { bits: 0 },
        material: lambert(),
        texture: TexMap::Constant(Colour::white()),
    };
    assert!(zero_radius.intersect(v3(0, 0, 5), v3(0, 0, -1)).is_none());
    let r = Rect_XY {
        x0: fxi(3),
        x1: fxi(5),
        y0: fxi(1),
        y1: fxi(3),
        k: fxi(-2),
        colour: Colour::white(),
        material: lambert(),
    };
    assert!(r.intersect(v3(4, 2, 0), v3(1, 0, 0)).is_none());
}

#[test]
fn aabb_from_inside_uses_exit_face() {
    let b = AABB {
        min: v3(-1, -1, -1),
        max: v3(1, 1, 1),
        colour: Colour::white(),
        material: lambert(),
    };
    let hit = b.intersect(v3(0, 0, 0), v3(1, 0, 0)).expect("ray from inside must hit");
    assert_eq!(hit.0.bits, FX_SCALE);
    assert_eq!((hit.4.x().bits, hit.4.y().bits, hit.4.z().bits), (FX_SCALE, 0, 0));
}

#[test]
fn signed_distance_of_ball() {
    let d = Sdf::Ball(fxi(1));
    assert_eq!(d.eval(v3(0, 0, 5)).bits, 4 * FX_SCALE);
    assert_eq!(d.eval(v3(0, 0, 0)).bits, -FX_SCALE);
}

#[test]
fn aabb_zero_direction_misses() {
    let b = AABB {
        min: v3(-1, -1, -1),
        max: v3(1, 1, 1),
        colour: Colour::white(),
        material: lambert(),
    };
    assert!(b.intersect(v3(0, 0, 0), v3(0, 0, 0)).is_none());
}
