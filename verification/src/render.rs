//! The path-tracing integrator and the per-pixel sampling loop.

use vstd::prelude::*;
use crate::fx::Fx;
use crate::fx::FX_SCALE;
use crate::fx::PI_BITS;
use crate::fx::pi;
use crate::fx::cos_fx;
use crate::fx::sin_fx;
use crate::fx::cos_spec;
use crate::fx::sin_spec;
use crate::fx::fadd;
use crate::fx::fsub;
use crate::fx::fmul;
use crate::fx::fdiv;
use crate::fx::fsqrt;
use crate::fx::fclamp;
use crate::fx::fadd_spec;
use crate::fx::fsub_spec;
use crate::fx::fmul_spec;
use crate::fx::fdiv_spec;
use crate::fx::fsqrt_spec;
use crate::fx::fclamp_spec;
use crate::fx::sat64;
use crate::vector::Vec3;
use crate::vector::FX_TWO;
use crate::vector::v3s;
use crate::vector::dot;
use crate::vector::cross;
use crate::vector::dot_spec;
use crate::vector::cross_spec;
use crate::vector::vadd_spec;
use crate::vector::vmul_spec;
use crate::vector::vscale_spec;
use crate::vector::vdiv_spec;
use crate::vector::vneg_spec;
use crate::vector::normalise_spec;
use crate::colour::Colour;
use crate::colour::Rgb8;
use crate::colour::clamp;
use crate::colour::pow_fx;
use crate::colour::pow_fx_spec;
use crate::colour::clamp_colour_spec;
use crate::colour::to_rgb_spec;
use crate::material::xorshift_spec;
use crate::material::rand_bits_spec;
use crate::material::random_float;
use crate::material::sample_spec;
use crate::primitive::Hit;
use crate::primitive::Shape;
use crate::primitive::Object;
use crate::primitive::scene_hit_upto;

verus! {

/// The fixed seed every render starts from.
pub const RENDER_SEED: u32 = 4839;

/// The fixed recursion depth of the integrator.
pub const TRACE_DEPTH: u32 = 4;

/// The direction the sun shines from.
pub open spec fn sun_direction_spec() -> Vec3 {
    normalise_spec(v3s(-(FX_SCALE as int), FX_SCALE as int, -(FX_SCALE as int)))
}

/// The procedural sky: a sharp forward-scattered sun term added to a
/// vertical gradient between sky blue and white.
pub open spec fn bg_colour_spec(d: Vec3) -> Colour {
    let sundirec = sun_direction_spec();
    let white = v3s(FX_SCALE as int, FX_SCALE as int, FX_SCALE as int);
    let sunpow = pow_fx_spec(fclamp_spec(fadd_spec(dot_spec(sundirec, d), 31457)), 300);
    let sunlight = vscale_spec(white, sunpow);
    let ht = fmul_spec(fadd_spec(FX_SCALE as int, d.y@), 524288);
    let htc = if ht < 0 {
        0
    } else {
        ht
    };
    let val = fmul_spec(htc, fsqrt_spec(htc));
    let sky = vscale_spec(
        vadd_spec(
            vscale_spec(v3s(471859, 713032, 912261), fsub_spec(FX_SCALE as int, val)),
            vscale_spec(white, val),
        ),
        419430,
    );
    vadd_spec(vscale_spec(sunlight, FX_SCALE as int), sky)
}

/// The sky colour seen along a direction that hits nothing.
pub fn bg_colour(d: Vec3) -> (r: Colour)
    ensures
        r == bg_colour_spec(d),
{
    let m = Fx { bits: -FX_SCALE };
    let p = Fx { bits: FX_SCALE };
    let sd0 = Vec3 { x: m, y: p, z: m };
    proof {
        vstd::arithmetic::div_mod::lemma_div_multiples_vanish(FX_SCALE as int, FX_SCALE as int);
        assert(dot_spec(sd0, sd0) == 3 * (FX_SCALE as int));
    }
    let sundirec = sd0.normalise();
    let white = Colour::white();
    let sunpow = pow_fx(fclamp(fadd(dot(sundirec, d), Fx { bits: 31457 })), 300);
    let sunlight = white.scale(sunpow);
    let ht = fmul(fadd(p, d.y), Fx { bits: 524288 });
    let htc = if ht.bits < 0 {
        Fx { bits: 0 }
    } else {
        ht
    };
    let val = fmul(htc, fsqrt(htc));
    let sky = Colour::new(Fx { bits: 471859 }, Fx { bits: 713032 }, Fx { bits: 912261 }).scale(
        fsub(p, val),
    ).add(white.scale(val)).scale(Fx { bits: 419430 });
    sunlight.scale(p).add(sky)
}

/// Radiance along a ray: the terminal depth returns white, a miss
/// returns the sky, and a hit combines emission with the recursively
/// estimated reflected radiance, normalised by `1/(pi * prob)`.
pub open spec fn trace_spec(o: Vec3, d: Vec3, scene: Seq<Shape>, depth: u32, seed: u32) -> (
    Colour,
    u32,
)
    decreases depth,
{
    if depth == 0 {
        (v3s(FX_SCALE as int, FX_SCALE as int, FX_SCALE as int), seed)
    } else {
        match scene_hit_upto(scene, o, d, scene.len() as int) {
            None => (bg_colour_spec(d), seed),
            Some(h) => {
                let mat = h.2;
                let col = h.3;
                let norm = h.4;
                let (newd, s1) = sample_spec(mat.brdf, norm, d, seed);
                let sg = if dot_spec(newd, norm) > 0 {
                    FX_SCALE as int
                } else {
                    -(FX_SCALE as int)
                };
                let o2 = vadd_spec(h.1, vscale_spec(vscale_spec(norm, 10486), sg));
                let (rec, s2) = trace_spec(o2, newd, scene, (depth - 1) as u32, s1);
                let emittance = vscale_spec(col, mat.emission@);
                let w = if mat.cos {
                    fclamp_spec(dot_spec(d, vneg_spec(norm)))
                } else {
                    FX_SCALE as int
                };
                let albedo = fmul_spec(mat.albedo@, w);
                let reflectance = vscale_spec(vmul_spec(col, rec), albedo);
                let pm = fmul_spec(PI_BITS as int, mat.prob@);
                let factor = if pm == 0 {
                    0
                } else {
                    fdiv_spec(FX_SCALE as int, pm)
                };
                (vscale_spec(vadd_spec(emittance, reflectance), factor), s2)
            },
        }
    }
}

/// Trace one ray through the scene.  At depth zero the result is white
/// for every ray and scene; a ray that hits nothing yields exactly the
/// deterministic sky colour for its direction.
pub fn trace(o: Vec3, d: Vec3, scene: &Vec<Shape>, depth: u32, seed: &mut u32) -> (r: Colour)
    ensures
        (r, *final(seed)) == trace_spec(o, d, scene@, depth, *old(seed)),
        depth == 0 ==> r == v3s(FX_SCALE as int, FX_SCALE as int, FX_SCALE as int),
        depth > 0 && scene_hit_upto(scene@, o, d, scene@.len() as int) is None ==> r
            == bg_colour_spec(d),
    decreases depth,
{
    if depth == 0 {
        return Colour::white();
    }
    let hit = scene.intersect(o, d);
    match hit {
        None => bg_colour(d),
        Some(h) => {
            let Hit(_dist, hitpos, mat, col, norm) = h;
            let newd = mat.sample(norm, d, seed);
            let sg = if dot(newd, norm).bits > 0 {
                Fx { bits: FX_SCALE }
            } else {
                Fx { bits: -FX_SCALE }
            };
            let o2 = hitpos.add(norm.scale(Fx { bits: 10486 }).scale(sg));
            let rec = trace(o2, newd, scene, depth - 1, seed);
            let emittance = col.scale(mat.emission);
            let w = if mat.cos {
                clamp(dot(d, norm.neg()))
            } else {
                Fx { bits: FX_SCALE }
            };
            let albedo = fmul(mat.albedo, w);
            let reflectance = col.mul(rec).scale(albedo);
            let pm = fmul(pi(), mat.prob);
            let factor = if pm.bits == 0 {
                Fx { bits: 0 }
            } else {
                fdiv(Fx { bits: FX_SCALE }, pm)
            };
            emittance.add(reflectance).scale(factor)
        },
    }
}

/// The orthonormal camera basis derived from the viewing direction and
/// the world's up reference.
pub open spec fn directions_spec(looking: Vec3, global_up: Vec3) -> (Vec3, Vec3) {
    let side = normalise_spec(cross_spec(global_up, looking));
    (side, cross_spec(looking, side))
}

/// Convert unit vectors for the viewing direction and global up into
/// the camera's orthonormal basis.
pub fn directions(looking: Vec3, global_up: Vec3) -> (r: (Vec3, Vec3))
    requires
        dot_spec(cross_spec(global_up, looking), cross_spec(global_up, looking)) > 0,
    ensures
        r == directions_spec(looking, global_up),
{
    let side = cross(global_up, looking).normalise();
    (side, cross(looking, side))
}

/// A pinhole camera.
pub struct SimpleCamera {
    /// Horizontal field of view.
    pub fov: Fx,
    pub position: Vec3,
    pub looking: Vec3,
    pub global_up: Vec3,
}

impl SimpleCamera {
    /// The camera parameters a render needs: a usable field of view and
    /// a viewing direction not parallel to the up reference.
    pub open spec fn wf(&self) -> bool {
        &&& 0 < self.fov@ <= PI_BITS as int
        &&& sin_spec(self.fov@ / 2) != 0
        &&& dot_spec(
            cross_spec(self.global_up, self.looking),
            cross_spec(self.global_up, self.looking),
        ) > 0
    }
}

/// The primary ray for one sample of pixel `(x, y)`: normalized device
/// coordinates with aspect correction, uniform jitter scaled by the
/// pixel footprint, and the camera basis; a degenerate direction falls
/// back to the viewing direction.
pub open spec fn camera_ray_spec(
    cam: SimpleCamera,
    side: Vec3,
    up: Vec3,
    hfac: int,
    w: int,
    h: int,
    x: int,
    y: int,
    seed: u32,
) -> (Vec3, u32) {
    let s1 = xorshift_spec(seed);
    let r1 = rand_bits_spec(s1);
    let s2 = xorshift_spec(s1);
    let r2 = rand_bits_spec(s2);
    let sc = FX_SCALE as int;
    let u0 = fdiv_spec(
        fmul_spec(fsub_spec(fdiv_spec(sat64(2 * x * sc), sat64((w - 1) * sc)), sc), sat64(w * sc)),
        sat64(h * sc),
    );
    let u = fadd_spec(
        u0,
        fmul_spec(fdiv_spec(fsub_spec(r1, 524288), sat64((h - 1) * sc)), FX_TWO as int),
    );
    let v0 = fadd_spec(fdiv_spec(sat64(-2 * y * sc), sat64((h - 1) * sc)), sc);
    let v = fadd_spec(
        v0,
        fmul_spec(fdiv_spec(fsub_spec(r2, 524288), sat64((h - 1) * sc)), FX_TWO as int),
    );
    let dir0 = vadd_spec(
        vadd_spec(vscale_spec(cam.looking, hfac), vscale_spec(side, u)),
        vscale_spec(up, v),
    );
    let dir = if dot_spec(dir0, dir0) > 0 {
        normalise_spec(dir0)
    } else {
        cam.looking
    };
    (dir, s2)
}

/// A positive fixed-point value for a pixel or sample count.
fn from_count(n: u32) -> (r: Fx)
    requires
        n >= 1,
    ensures
        r@ == sat64(n * FX_SCALE),
        r@ > 0,
{
    proof {
        assert((n as int) * (FX_SCALE as int) >= FX_SCALE as int && (n as int) * (FX_SCALE as int)
            <= 0xFFFFFFFF * 0x100000) by (nonlinear_arith)
            requires
                1 <= n as int <= 0xFFFFFFFF,
                FX_SCALE as int == 0x100000,
        ;
    }
    Fx::from_int(n as i64)
}

impl SimpleCamera {
    fn camera_ray(&self, side: Vec3, up: Vec3, hfac: Fx, w: u32, h: u32, x: u32, y: u32, seed: &mut
        u32) -> (dir: Vec3)
        requires
            w >= 2,
            h >= 2,
        ensures
            (dir, *final(seed)) == camera_ray_spec(
                *self,
                side,
                up,
                hfac@,
                w as int,
                h as int,
                x as int,
                y as int,
                *old(seed),
            ),
    {
        let r1 = random_float(seed);
        let r2 = random_float(seed);
        let wm1 = from_count(w - 1);
        let hm1 = from_count(h - 1);
        let wf = from_count(w);
        let hf = from_count(h);
        let xf = Fx::from_int(2 * (x as i64));
        let yf = Fx::from_int(-2 * (y as i64));
        let half = Fx { bits: 524288 };
        let two = Fx { bits: FX_TWO };
        let u0 = fdiv(fmul(fsub(fdiv(xf, wm1), Fx { bits: FX_SCALE }), wf), hf);
        let u = fadd(u0, fmul(fdiv(fsub(r1, half), hm1), two));
        let v0 = fadd(fdiv(yf, hm1), Fx { bits: FX_SCALE });
        let v = fadd(v0, fmul(fdiv(fsub(r2, half), hm1), two));
        let dir0 = self.looking.scale(hfac).add(side.scale(u)).add(up.scale(v));
        let ls = dot(dir0, dir0);
        if ls.bits > 0 {
            dir0.normalise()
        } else {
            self.looking
        }
    }
}

/// The colour accumulated over the first `k` samples of pixel `(x, y)`.
pub open spec fn sample_loop_spec(
    cam: SimpleCamera,
    scene: Seq<Shape>,
    side: Vec3,
    up: Vec3,
    hfac: int,
    w: int,
    h: int,
    x: int,
    y: int,
    k: int,
    seed: u32,
) -> (Colour, u32)
    decreases k,
{
    if k <= 0 {
        (v3s(0, 0, 0), seed)
    } else {
        let (acc, s0) = sample_loop_spec(cam, scene, side, up, hfac, w, h, x, y, k - 1, seed);
        let (dir, s1) = camera_ray_spec(cam, side, up, hfac, w, h, x, y, s0);
        let (c, s2) = trace_spec(cam.position, dir, scene, TRACE_DEPTH, s1);
        (vadd_spec(acc, c), s2)
    }
}

/// One finished pixel: the sample average, clamped and display-encoded.
pub open spec fn pixel_spec(
    cam: SimpleCamera,
    scene: Seq<Shape>,
    side: Vec3,
    up: Vec3,
    hfac: int,
    w: int,
    h: int,
    samples: int,
    x: int,
    y: int,
    seed: u32,
) -> (Rgb8, u32) {
    let (acc, s1) = sample_loop_spec(cam, scene, side, up, hfac, w, h, x, y, samples, seed);
    let avg = vdiv_spec(acc, sat64(samples * (FX_SCALE as int)));
    (to_rgb_spec(clamp_colour_spec(avg)), s1)
}

/// The first `n` pixels of row `y`, left to right.
pub open spec fn row_spec(
    cam: SimpleCamera,
    scene: Seq<Shape>,
    side: Vec3,
    up: Vec3,
    hfac: int,
    w: int,
    h: int,
    samples: int,
    y: int,
    n: int,
    seed: u32,
) -> (Seq<Rgb8>, u32)
    decreases n,
{
    if n <= 0 {
        (Seq::empty(), seed)
    } else {
        let (row, s0) = row_spec(cam, scene, side, up, hfac, w, h, samples, y, n - 1, seed);
        let (px, s1) = pixel_spec(cam, scene, side, up, hfac, w, h, samples, n - 1, y, s0);
        (row.push(px), s1)
    }
}

/// The first `m` rows of the image, top to bottom.
pub open spec fn grid_spec(
    cam: SimpleCamera,
    scene: Seq<Shape>,
    side: Vec3,
    up: Vec3,
    hfac: int,
    w: int,
    h: int,
    samples: int,
    m: int,
    seed: u32,
) -> (Seq<Seq<Rgb8>>, u32)
    decreases m,
{
    if m <= 0 {
        (Seq::empty(), seed)
    } else {
        let (g, s0) = grid_spec(cam, scene, side, up, hfac, w, h, samples, m - 1, seed);
        let (row, s1) = row_spec(cam, scene, side, up, hfac, w, h, samples, m - 1, w, s0);
        (g.push(row), s1)
    }
}

/// The whole image a camera renders: the camera basis and focal factor
/// are fixed once, then every pixel's samples are traced with the seed
/// threaded through the grid in row-major order.
pub open spec fn render_grid_spec(
    cam: SimpleCamera,
    scene: Seq<Shape>,
    w: int,
    h: int,
    samples: int,
) -> Seq<Seq<Rgb8>> {
    let (side, up) = directions_spec(cam.looking, cam.global_up);
    let hfac = fdiv_spec(cos_spec(cam.fov@ / 2), sin_spec(cam.fov@ / 2));
    grid_spec(cam, scene, side, up, hfac, w, h, samples, h, RENDER_SEED).0
}

/// The mathematical view of a pixel grid: each row as a sequence.
pub open spec fn rows_view(g: Seq<Vec<Rgb8>>) -> Seq<Seq<Rgb8>> {
    g.map_values(|row: Vec<Rgb8>| row@)
}

/// Whether something can render a scene to a pixel grid.
pub trait Render {
    spec fn render_wf(&self) -> bool;

    spec fn render_spec(&self, scene: Seq<Shape>, width: u32, height: u32, samples: u32) -> Seq<
        Seq<Rgb8>,
    >;

    /// Render the scene to a grid of display-encoded pixels, row by
    /// row from the top.
    fn render(&self, scene: &Vec<Shape>, width: u32, height: u32, samples: u32) -> (r: Vec<
        Vec<Rgb8>,
    >)
        requires
            self.render_wf(),
            width >= 2,
            height >= 2,
            samples >= 1,
        ensures
            rows_view(r@) == self.render_spec(scene@, width, height, samples),
    ;
}

impl Render for SimpleCamera {
    open spec fn render_wf(&self) -> bool {
        self.wf()
    }

    open spec fn render_spec(&self, scene: Seq<Shape>, width: u32, height: u32, samples: u32) -> Seq<
        Seq<Rgb8>,
    > {
        render_grid_spec(*self, scene, width as int, height as int, samples as int)
    }

    #[verifier::rlimit(100)]
    fn render(&self, scene: &Vec<Shape>, width: u32, height: u32, samples: u32) -> (r: Vec<
        Vec<Rgb8>,
    >) {
        let (side, up) = directions(self.looking, self.global_up);
        let halfv = Fx { bits: ((self.fov.bits as u64) / 2) as i64 };
        proof {
            assert(0 <= self.fov@ / 2 <= crate::fx::TWO_PI_BITS as int);
        }
        let hfac = fdiv(cos_fx(halfv), sin_fx(halfv));
        let mut seed: u32 = RENDER_SEED;
        let mut grid: Vec<Vec<Rgb8>> = Vec::new();
        let mut y: u32 = 0;
        while y < height
            invariant
                y <= height,
                width >= 2,
                height >= 2,
                samples >= 1,
                (side, up) == directions_spec(self.looking, self.global_up),
                hfac@ == fdiv_spec(cos_spec(self.fov@ / 2), sin_spec(self.fov@ / 2)),
                (rows_view(grid@), seed) == grid_spec(
                    *self,
                    scene@,
                    side,
                    up,
                    hfac@,
                    width as int,
                    height as int,
                    samples as int,
                    y as int,
                    RENDER_SEED,
                ),
            decreases height - y,
        {
            let ghost row_seed = seed;
            let mut row: Vec<Rgb8> = Vec::new();
            let mut x: u32 = 0;
            while x < width
                invariant
                    x <= width,
                    width >= 2,
                    height >= 2,
                    samples >= 1,
                    y < height,
                    (row@, seed) == row_spec(
                        *self,
                        scene@,
                        side,
                        up,
                        hfac@,
                        width as int,
                        height as int,
                        samples as int,
                        y as int,
                        x as int,
                        row_seed,
                    ),
                decreases width - x,
            {
                let mut acc = Colour::black();
                let ghost px_seed = seed;
                let mut k: u32 = 0;
                while k < samples
                    invariant
                        k <= samples,
                        width >= 2,
                        height >= 2,
                        y < height,
                        x < width,
                        (acc, seed) == sample_loop_spec(
                            *self,
                            scene@,
                            side,
                            up,
                            hfac@,
                            width as int,
                            height as int,
                            x as int,
                            y as int,
                            k as int,
                            px_seed,
                        ),
                    decreases samples - k,
                {
                    let dir = self.camera_ray(side, up, hfac, width, height, x, y, &mut seed);
                    let c = trace(self.position, dir, scene, TRACE_DEPTH, &mut seed);
                    acc = acc.add(c);
                    proof {
                        assert((acc, seed) == sample_loop_spec(
                            *self,
                            scene@,
                            side,
                            up,
                            hfac@,
                            width as int,
                            height as int,
                            x as int,
                            y as int,
                            k as int + 1,
                            px_seed,
                        ));
                    }
                    k = k + 1;
                }
                let denom = from_count(samples);
                let px = acc.div_s(denom).clamp().to_rgb();
                proof {
                    assert((px, seed) == pixel_spec(
                        *self,
                        scene@,
                        side,
                        up,
                        hfac@,
                        width as int,
                        height as int,
                        samples as int,
                        x as int,
                        y as int,
                        px_seed,
                    ));
                }
                row.push(px);
                proof {
                    assert((row@, seed) == row_spec(
                        *self,
                        scene@,
                        side,
                        up,
                        hfac@,
                        width as int,
                        height as int,
                        samples as int,
                        y as int,
                        x as int + 1,
                        row_seed,
                    ));
                }
                x = x + 1;
            }
            let ghost g0 = grid@;
            grid.push(row);
            proof {
                assert(rows_view(grid@) =~= rows_view(g0).push(row@));
                assert((rows_view(grid@), seed) == grid_spec(
                    *self,
                    scene@,
                    side,
                    up,
                    hfac@,
                    width as int,
                    height as int,
                    samples as int,
                    y as int + 1,
                    RENDER_SEED,
                ));
            }
            y = y + 1;
        }
        proof {
            assert(rows_view(grid@) == render_grid_spec(
                *self,
                scene@,
                width as int,
                height as int,
                samples as int,
            ));
        }
        grid
    }
}

} // verus!
