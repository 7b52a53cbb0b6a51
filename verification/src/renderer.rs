//! The frame renderer: one camera ray per pixel, marched against the scene
//! and shaded into a tightly packed RGBA8 buffer. Pixels are mutually
//! independent, so the buffer is filled by a parallel fan-out whose every
//! chunk is written by the verified per-pixel function.

use vstd::prelude::*;

use rayon::iter::{IndexedParallelIterator, ParallelIterator};
use rayon::slice::ParallelSliceMut;

verus! {

use crate::math::{SCALE, tdiv, div_trunc, max_i64, lemma_mul_abs_bound};
use crate::ray::{MarchSettings, Ray, march_spec, ray_matches, STEPS_LIMIT, GLOW_INIT};
use crate::scene::Scene;
use crate::shape::{Shape, COORD_LIMIT};
use crate::vec3::{Vec3, V3};

/// Far threshold handed to the marcher for every pixel (1000 world units).
pub const PIXEL_MAX_DIST: i64 = 4_096_000;

/// Surface threshold handed to the marcher for every pixel: one fixed-point
/// unit, the tightest surface test the integer distance field can express.
pub const PIXEL_MIN_DIST: i64 = 1;

/// User-facing rendering parameters, loaded once and immutable for the
/// duration of a render.
#[derive(Clone, Copy, PartialEq, Eq, Structural, Debug)]
pub struct Config {
    pub glow_amount: i64,
    pub object_color: Vec3,
    pub glow_color: Vec3,
    pub steps: i32,
    pub image_width: i32,
    pub image_height: i32,
    pub camera_position: Vec3,
}

impl Config {
    /// The configuration lies within the fixed-point ranges the renderer is
    /// proven safe for.
    pub open spec fn wf(self) -> bool {
        &&& -COORD_LIMIT <= self.glow_amount <= COORD_LIMIT
        &&& self.object_color@.in_bounds(COORD_LIMIT as int)
        &&& self.glow_color@.in_bounds(COORD_LIMIT as int)
        &&& self.camera_position@.in_bounds(COORD_LIMIT as int)
        &&& 0 <= self.steps <= STEPS_LIMIT
        &&& 0 <= self.image_width <= 16384
        &&& 0 <= self.image_height <= 16384
    }
}

impl Default for Config {
    /// The stock configuration: a 1280x720 frame, 32 marching steps, a faint
    /// magenta glow, a blue object color, and the camera 15 world units back.
    fn default() -> (c: Config)
        ensures
            c == (Config {
                glow_amount: 2048,
                object_color: Vec3 { x: 0, y: 0, z: 3686 },
                glow_color: Vec3 { x: 4096, y: 0, z: 4096 },
                steps: 32,
                image_width: 1280,
                image_height: 720,
                camera_position: Vec3 { x: 0, y: 0, z: -61440i64 },
            }),
            c.wf(),
    {
        Config {
            glow_amount: 2048,
            object_color: Vec3 { x: 0, y: 0, z: 3686 },
            glow_color: Vec3 { x: 4096, y: 0, z: 4096 },
            steps: 32,
            image_width: 1280,
            image_height: 720,
            camera_position: Vec3 { x: 0, y: 0, z: -61440 },
        }
    }
}

/// Glow intensity for a missed ray whose closest approach was `gd`: fades
/// linearly with distance and clamps at zero.
pub open spec fn glow_spec(glow_amount: int, gd: int) -> int {
    vstd::math::max(glow_amount - 20 * gd, 0)
}

/// One 8-bit color channel: intensity times color, descaled from the doubled
/// fixed point and saturated into `0..=255`.
pub open spec fn channel_spec(intensity: int, col: int) -> int {
    let v = tdiv(intensity * col * 255, (SCALE * SCALE) as int);
    if v < 0 {
        0
    } else if v > 255 {
        255
    } else {
        v
    }
}

/// The camera ray direction of pixel `i` (row-major): the pixel's centered
/// offset in the image plane, with the image height as depth, normalized.
pub open spec fn pixel_dir(config: Config, i: int) -> V3 {
    let w = config.image_width as int;
    let h = config.image_height as int;
    let x = i % w;
    let y = i / w;
    (V3 {
        x: x * (SCALE as int) - w * 2048,
        y: y * (SCALE as int) - h * 2048,
        z: h * (SCALE as int),
    }).unit()
}

/// The marching inputs of pixel `i`: fixed thresholds, the configured camera
/// position and step budget, and a fixed light at (2, 2, 7) world units.
pub open spec fn pixel_settings(config: Config, i: int) -> MarchSettings {
    MarchSettings {
        origin: config.camera_position,
        direction: (Vec3 {
            x: pixel_dir(config, i).x as i64,
            y: pixel_dir(config, i).y as i64,
            z: pixel_dir(config, i).z as i64,
        }),
        max_dist: PIXEL_MAX_DIST,
        min_dist: PIXEL_MIN_DIST,
        steps: config.steps,
        light_position: (Vec3 { x: 8192, y: 8192, z: 28672 }),
    }
}

/// The RGB color of pixel `i`: diffuse-shaded object color on a hit, faded
/// glow color on a miss.
pub open spec fn pixel_color(config: Config, scene: Scene, i: int) -> (int, int, int) {
    let m = march_spec(scene, pixel_settings(config, i));
    if m.hit {
        (
            channel_spec(m.diffuse_reflection, config.object_color@.x),
            channel_spec(m.diffuse_reflection, config.object_color@.y),
            channel_spec(m.diffuse_reflection, config.object_color@.z),
        )
    } else {
        let g = glow_spec(config.glow_amount as int, m.glow_distance);
        (
            channel_spec(g, config.glow_color@.x),
            channel_spec(g, config.glow_color@.y),
            channel_spec(g, config.glow_color@.z),
        )
    }
}

/// Computes one saturated 8-bit color channel.
fn channel(intensity: i64, col: i64) -> (c: u8)
    requires
        0 <= intensity <= 30_000_000,
        -COORD_LIMIT <= col <= COORD_LIMIT,
    ensures
        c == channel_spec(intensity as int, col as int),
{
    proof {
        lemma_mul_abs_bound(intensity as int, col as int, 30_000_000, COORD_LIMIT as int);
        lemma_mul_abs_bound(
            intensity as int * col as int,
            255,
            30_000_000 * (COORD_LIMIT as int),
            255,
        );
    }
    let v = div_trunc(intensity * col * 255, SCALE * SCALE);
    if v < 0 {
        0
    } else if v > 255 {
        255
    } else {
        v as u8
    }
}

/// Builds the camera ray of pixel `i` and marches it against the scene.
pub fn march_pixel(config: &Config, scene: &Scene, i: usize) -> (r: Ray)
    requires
        config.wf(),
        scene.wf(),
        i < config.image_width * config.image_height,
    ensures
        ray_matches(r, pixel_settings(*config, i as int), march_spec(*scene, pixel_settings(*config, i as int))),
        0 <= r.diffuse_reflection <= 3 * (SCALE as int),
        -COORD_LIMIT <= r.glow_distance <= GLOW_INIT,
{
    let w = config.image_width as usize;
    let h = config.image_height as usize;
    proof {
        assert(config.image_width > 0 && config.image_height > 0) by (nonlinear_arith)
            requires
                0 < config.image_width * config.image_height,
                0 <= config.image_width,
                0 <= config.image_height,
        ;
    }
    let x = i % w;
    let y = i / w;
    proof {
        vstd::arithmetic::div_mod::lemma_mod_division_less_than_divisor(i as int, w as int);
        vstd::arithmetic::div_mod::lemma_multiply_divide_lt(i as int, w as int, h as int);
    }
    let ux: i64 = (x as i64) * SCALE - (w as i64) * 2048;
    let uy: i64 = (y as i64) * SCALE - (h as i64) * 2048;
    let uz: i64 = (h as i64) * SCALE;
    let dir = Vec3::new(ux, uy, uz).normalize();
    let settings = MarchSettings {
        origin: config.camera_position,
        direction: dir,
        max_dist: PIXEL_MAX_DIST,
        min_dist: PIXEL_MIN_DIST,
        steps: config.steps,
        light_position: Vec3::new(8192, 8192, 28672),
    };
    proof {
        assert(settings == pixel_settings(*config, i as int));
    }
    Ray::march(&settings, scene)
}

/// Shades pixel `i` of the frame: march its ray, then turn the outcome into
/// one RGBA8 pixel with a fully opaque alpha.
pub fn shade_pixel(config: &Config, scene: &Scene, i: usize) -> (px: (u8, u8, u8, u8))
    requires
        config.wf(),
        scene.wf(),
        i < config.image_width * config.image_height,
    ensures
        px.0 == pixel_color(*config, *scene, i as int).0,
        px.1 == pixel_color(*config, *scene, i as int).1,
        px.2 == pixel_color(*config, *scene, i as int).2,
        px.3 == 255,
{
    let ray = march_pixel(config, scene, i);
    if ray.hit {
        (
            channel(ray.diffuse_reflection, config.object_color.x),
            channel(ray.diffuse_reflection, config.object_color.y),
            channel(ray.diffuse_reflection, config.object_color.z),
            255,
        )
    } else {
        let glow = max_i64(config.glow_amount - 20 * ray.glow_distance, 0);
        (
            channel(glow, config.glow_color.x),
            channel(glow, config.glow_color.y),
            channel(glow, config.glow_color.z),
            255,
        )
    }
}

/// Relies on rayon's `par_chunks_mut` + `enumerate` + `for_each` over a fresh
/// zeroed buffer: the chunks are the disjoint 4-byte pixel regions in order,
/// each written exactly once by the verified `shade_pixel` for its own index,
/// with nothing shared across tasks but the read-only config and scene.
#[verifier::external_body]
fn fill_parallel(config: &Config, scene: &Scene, n: usize) -> (data: Vec<u8>)
    requires
        config.wf(),
        scene.wf(),
        n == config.image_width * config.image_height,
    ensures
        data@.len() == n * 4,
        forall|i: int|
            0 <= i < n ==> {
                &&& data@[4 * i] == pixel_color(*config, *scene, i).0
                &&& data@[4 * i + 1] == pixel_color(*config, *scene, i).1
                &&& data@[4 * i + 2] == pixel_color(*config, *scene, i).2
                &&& data@[4 * i + 3] == 255
            },
{
    let mut data = vec![0u8; n * 4];
    data.par_chunks_mut(4).enumerate().for_each(|(i, px)| {
        let (r, g, b, a) = shade_pixel(config, scene, i);
        px[0] = r;
        px[1] = g;
        px[2] = b;
        px[3] = a;
    });
    data
}

/// Renders the frame: a tightly packed RGBA8 buffer, row-major from the top,
/// `image_width * image_height * 4` bytes long, every pixel shaded as
/// `pixel_color` says and every alpha byte 255.
pub fn render(config: &Config, scene: &Scene) -> (data: Vec<u8>)
    requires
        config.wf(),
        scene.wf(),
    ensures
        data@.len() == config.image_width * config.image_height * 4,
        forall|i: int|
            0 <= i < config.image_width * config.image_height ==> {
                &&& data@[4 * i] == pixel_color(*config, *scene, i).0
                &&& data@[4 * i + 1] == pixel_color(*config, *scene, i).1
                &&& data@[4 * i + 2] == pixel_color(*config, *scene, i).2
                &&& data@[4 * i + 3] == 255
            },
{
    proof {
        assert(config.image_width * config.image_height <= 16384 * 16384) by (nonlinear_arith)
            requires
                0 <= config.image_width <= 16384,
                0 <= config.image_height <= 16384,
        ;
    }
    let n = (config.image_width as usize) * (config.image_height as usize);
    fill_parallel(config, scene, n)
}

/// Glow monotonicity: of two missed rays, the one that came closer to a
/// surface glows at least as much, for every glow amount.
pub proof fn lemma_glow_monotone(glow_amount: int, d1: int, d2: int)
    requires
        d1 <= d2,
    ensures
        glow_spec(glow_amount, d1) >= glow_spec(glow_amount, d2),
{
}

/// Glow monotonicity carried through shading: on a nonnegative color channel
/// the closer miss yields at least as bright a shaded byte.
pub proof fn lemma_glow_shading_monotone(glow_amount: int, col: int, d1: int, d2: int)
    requires
        d1 <= d2,
        0 <= col,
    ensures
        channel_spec(glow_spec(glow_amount, d1), col) >= channel_spec(
            glow_spec(glow_amount, d2),
            col,
        ),
{
    let g1 = glow_spec(glow_amount, d1);
    let g2 = glow_spec(glow_amount, d2);
    lemma_glow_monotone(glow_amount, d1, d2);
    assert(g1 * col >= g2 * col) by (nonlinear_arith)
        requires
            g1 >= g2 >= 0,
            col >= 0,
    ;
    assert(g1 * col * 255 >= g2 * col * 255) by (nonlinear_arith)
        requires
            g1 * col >= g2 * col,
    ;
    assert(g2 * col >= 0 && g2 * col * 255 >= 0) by (nonlinear_arith)
        requires
            g2 >= 0,
            col >= 0,
    ;
    vstd::arithmetic::div_mod::lemma_div_is_ordered(
        g2 * col * 255,
        g1 * col * 255,
        (SCALE * SCALE) as int,
    );
    vstd::arithmetic::div_mod::lemma_div_pos_is_pos(g2 * col * 255, (SCALE * SCALE) as int);
}

} // verus!
