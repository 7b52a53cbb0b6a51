//! The sphere tracer: marching a ray against a shape's signed-distance field,
//! and the tetrahedral estimate of the surface normal used for shading.
//!
//! The marching loop is modelled by the recursive specification `march_loop`;
//! `Ray::march` is proven to return exactly the model's result, so marching is
//! a pure function of the settings and the shape.

use vstd::prelude::*;

verus! {

use crate::math::{SCALE, tdiv, div_trunc, min_i64};
use crate::shape::{Shape, COORD_LIMIT};
use crate::vec3::{Vec3, V3};

/// Sentinel the glow tracker starts from: larger than any observable distance.
pub const GLOW_INIT: i64 = 1_000_000_000;

/// Largest step budget the marcher accepts.
pub const STEPS_LIMIT: i32 = 100_000;

/// Largest magnitude accepted for the far threshold `max_dist`.
pub const MAXD_LIMIT: i64 = 1_000_000_000;

/// Largest component magnitude accepted for a ray direction; a normalized
/// direction has components within `SCALE`.
pub const DIR_LIMIT: i64 = 8192;

/// Offset of the four tetrahedral samples used for normal estimation
/// (about 0.0005 world units).
pub const EPS: i64 = 2;

/// Largest component magnitude at which a normal may be estimated.
pub const NORMAL_LIMIT: i64 = 10_000_000_000_000;

/// Bound on the distance accumulator of the marching loop.
pub const RAY_DIST_LIMIT: i64 = 1_000_000_000_000;

/// Read-only inputs of one marching run. The shape marched against is passed
/// to `Ray::march` alongside the settings.
#[derive(Clone, Copy, PartialEq, Eq, Structural, Debug)]
pub struct MarchSettings {
    pub origin: Vec3,
    pub direction: Vec3,
    pub max_dist: i64,
    pub min_dist: i64,
    pub steps: i32,
    pub light_position: Vec3,
}

impl MarchSettings {
    /// The settings lie within the fixed-point ranges the marcher is proven
    /// safe for. Callers normalize `direction` explicitly; the engine only
    /// needs its components bounded.
    pub open spec fn wf(self) -> bool {
        &&& self.origin@.in_bounds(COORD_LIMIT as int)
        &&& self.direction@.in_bounds(DIR_LIMIT as int)
        &&& self.light_position@.in_bounds(COORD_LIMIT as int)
        &&& -MAXD_LIMIT <= self.max_dist <= MAXD_LIMIT
        &&& self.steps <= STEPS_LIMIT
    }
}

/// The result of marching one ray: populated once, then only read.
#[derive(Clone, Copy, PartialEq, Eq, Structural, Debug)]
pub struct Ray {
    pub total_distance: i64,
    pub min_distance: i64,
    pub start_position: Vec3,
    pub end_position: Vec3,
    pub direction: Vec3,
    pub hit: bool,
    pub diffuse_reflection: i64,
    pub glow_distance: i64,
}

/// The mathematical result of one marching run.
pub struct MarchResult {
    pub total_distance: int,
    pub min_distance: int,
    pub end_position: V3,
    pub hit: bool,
    pub diffuse_reflection: int,
    pub glow_distance: int,
}

/// The returned `Ray` carries the settings' origin and direction and exactly
/// the model's outcome in every other field.
pub open spec fn ray_matches(r: Ray, s: MarchSettings, m: MarchResult) -> bool {
    &&& r.start_position == s.origin
    &&& r.direction == s.direction
    &&& r.total_distance == m.total_distance
    &&& r.min_distance == m.min_distance
    &&& r.end_position@ == m.end_position
    &&& r.hit == m.hit
    &&& r.diffuse_reflection == m.diffuse_reflection
    &&& r.glow_distance == m.glow_distance
}

/// Position reached after travelling `t` fixed-point units from the origin.
pub open spec fn pos_at(s: MarchSettings, t: int) -> V3 {
    s.origin@.plus(s.direction@.scaled(t))
}

/// Tetrahedral estimate of the outward surface normal at `pos`: the four
/// samples of the distance field, each weighted by its offset direction,
/// summed and normalized. On a symmetry singularity the sum normalizes to the
/// zero vector ("undefined normal": shading degrades to a zero diffuse term).
pub open spec fn normal_at<S: Shape>(shape: S, pos: V3) -> V3 {
    let e1 = V3 { x: EPS as int, y: -EPS as int, z: -EPS as int };
    let e2 = V3 { x: -EPS as int, y: -EPS as int, z: EPS as int };
    let e3 = V3 { x: -EPS as int, y: EPS as int, z: -EPS as int };
    let e4 = V3 { x: EPS as int, y: EPS as int, z: EPS as int };
    e1.timesc(shape.sdf(pos.plus(e1))).plus(e2.timesc(shape.sdf(pos.plus(e2)))).plus(
        e3.timesc(shape.sdf(pos.plus(e3))),
    ).plus(e4.timesc(shape.sdf(pos.plus(e4)))).unit()
}

/// Unsigned diffuse term at `pos`: the absolute fixed-point cosine between
/// the estimated normal and the direction toward the light.
pub open spec fn diffuse_at<S: Shape>(shape: S, s: MarchSettings, pos: V3) -> int {
    let light_dir = s.light_position@.minus(pos).unit();
    vstd::math::abs(tdiv(normal_at(shape, pos).dot(light_dir), SCALE as int)) as int
}

/// The result of a run that never found a surface: the far threshold as the
/// travelled distance, a fixed sentinel end position, and the glow tracker's
/// closest approach.
pub open spec fn miss_result(s: MarchSettings, glow: int) -> MarchResult {
    MarchResult {
        total_distance: s.max_dist as int,
        min_distance: s.max_dist as int,
        end_position: s.origin@.plus(s.direction@),
        hit: false,
        diffuse_reflection: 0,
        glow_distance: glow,
    }
}

/// One marching state unfolded: from step `i` with accumulated distance
/// `ray_dist` and closest approach `glow`, the run's final result.
pub open spec fn march_loop<S: Shape>(
    shape: S,
    s: MarchSettings,
    i: int,
    ray_dist: int,
    glow: int,
) -> MarchResult
    decreases s.steps - i,
{
    if i >= s.steps {
        miss_result(s, glow)
    } else {
        let pos = pos_at(s, ray_dist);
        let d = shape.sdf(pos);
        let glow2 = vstd::math::min(glow, d);
        if d < s.min_dist {
            MarchResult {
                total_distance: ray_dist,
                min_distance: if d < s.max_dist {
                    d
                } else {
                    s.max_dist as int
                },
                end_position: pos,
                hit: true,
                diffuse_reflection: diffuse_at(shape, s, pos),
                glow_distance: glow2,
            }
        } else if ray_dist > s.max_dist {
            miss_result(s, glow2)
        } else {
            march_loop(shape, s, i + 1, ray_dist + d, glow2)
        }
    }
}

/// The full marching run from the origin.
pub open spec fn march_spec<S: Shape>(shape: S, s: MarchSettings) -> MarchResult {
    march_loop(shape, s, 0, 0, GLOW_INIT as int)
}

/// Estimates the outward surface normal at `pos` by the tetrahedron
/// technique: four distance-field samples instead of six.
#[verifier::rlimit(60)]
pub fn calculate_normal<S: Shape>(pos: Vec3, shape: &S) -> (n: Vec3)
    requires
        shape.wf(),
        pos@.in_bounds(NORMAL_LIMIT as int),
    ensures
        n@ == normal_at(*shape, pos@),
        n@.in_bounds(SCALE as int),
{
    let e1 = Vec3::new(EPS, -EPS, -EPS);
    let e2 = Vec3::new(-EPS, -EPS, EPS);
    let e3 = Vec3::new(-EPS, EPS, -EPS);
    let e4 = Vec3::new(EPS, EPS, EPS);
    let d1 = shape.get_signed_distance(pos.plus(e1));
    let d2 = shape.get_signed_distance(pos.plus(e2));
    let d3 = shape.get_signed_distance(pos.plus(e3));
    let d4 = shape.get_signed_distance(pos.plus(e4));
    let raw = e1.times(d1).plus(e2.times(d2)).plus(e3.times(d3)).plus(e4.times(d4));
    raw.normalize()
}

impl Ray {
    /// Sphere tracing: starting at the settings' origin, repeatedly advance
    /// by the distance the field reports — always safe, never overshooting —
    /// until the field drops below `min_dist` (a hit), the travelled distance
    /// passes `max_dist`, or the step budget is exhausted (both misses).
    pub fn march<S: Shape>(settings: &MarchSettings, shape: &S) -> (r: Ray)
        requires
            settings.wf(),
            shape.wf(),
        ensures
            ray_matches(r, *settings, march_spec(*shape, *settings)),
            0 <= r.diffuse_reflection <= 3 * (SCALE as int),
            -COORD_LIMIT <= r.glow_distance <= GLOW_INIT,
    {
        let mut ray_dist: i64 = 0;
        let mut glow_dist: i64 = GLOW_INIT;
        let mut i: i32 = 0;

        while i < settings.steps
            invariant_except_break
                settings.wf(),
                shape.wf(),
                0 <= i,
                i <= vstd::math::max(settings.steps as int, 0),
                -(i as int) * (COORD_LIMIT as int) <= ray_dist,
                ray_dist <= RAY_DIST_LIMIT,
                -COORD_LIMIT <= glow_dist <= GLOW_INIT,
                march_spec(*shape, *settings) == march_loop(
                    *shape,
                    *settings,
                    i as int,
                    ray_dist as int,
                    glow_dist as int,
                ),
            ensures
                -COORD_LIMIT <= glow_dist <= GLOW_INIT,
                march_spec(*shape, *settings) == miss_result(*settings, glow_dist as int),
            decreases settings.steps - i,
        {
            let pos = settings.origin.plus(settings.direction.scaled(ray_dist));
            let distance = shape.get_signed_distance(pos);
            glow_dist = min_i64(glow_dist, distance);
            if distance < settings.min_dist {
                let normal = calculate_normal(pos, shape);
                let light_direction = settings.light_position.minus(pos).normalize();
                let dotv = normal.dot(light_direction);
                proof {
                    crate::math::lemma_mul_abs_bound(
                        normal@.x,
                        light_direction@.x,
                        SCALE as int,
                        SCALE as int,
                    );
                    crate::math::lemma_mul_abs_bound(
                        normal@.y,
                        light_direction@.y,
                        SCALE as int,
                        SCALE as int,
                    );
                    crate::math::lemma_mul_abs_bound(
                        normal@.z,
                        light_direction@.z,
                        SCALE as int,
                        SCALE as int,
                    );
                    crate::math::lemma_tdiv_bounds(
                        dotv as int,
                        SCALE as int,
                        3 * (SCALE as int),
                    );
                }
                let dd = div_trunc(dotv, SCALE);
                let diffuse_reflection: i64 = if dd >= 0 {
                    dd
                } else {
                    -dd
                };
                let ray_min_dist = if distance < settings.max_dist {
                    distance
                } else {
                    settings.max_dist
                };
                return Ray {
                    start_position: settings.origin,
                    direction: settings.direction,
                    total_distance: ray_dist,
                    min_distance: ray_min_dist,
                    end_position: pos,
                    hit: true,
                    diffuse_reflection,
                    glow_distance: glow_dist,
                };
            }
            if ray_dist > settings.max_dist {
                break;
            }
            ray_dist = ray_dist + distance;
            i = i + 1;
        }

        Ray {
            start_position: settings.origin,
            direction: settings.direction,
            total_distance: settings.max_dist,
            min_distance: settings.max_dist,
            end_position: settings.origin.plus(settings.direction),
            hit: false,
            diffuse_reflection: 0,
            glow_distance: glow_dist,
        }
    }

    /// The point reached after travelling `t` fixed-point units from the
    /// ray's start along its direction.
    pub fn world_space(&self, t: i64) -> (p: Vec3)
        requires
            self.start_position@.in_bounds(COORD_LIMIT as int),
            self.direction@.in_bounds(DIR_LIMIT as int),
            -RAY_DIST_LIMIT <= t <= RAY_DIST_LIMIT,
        ensures
            p@ == self.start_position@.plus(self.direction@.scaled(t as int)),
    {
        self.start_position.plus(self.direction.scaled(t))
    }
}

/// Hit determinism: the marching model is a function of its inputs alone, so
/// two rays that both match one model under the same settings are identical
/// in every field.
pub proof fn lemma_march_deterministic(r1: Ray, r2: Ray, s: MarchSettings, m: MarchResult)
    requires
        ray_matches(r1, s, m),
        ray_matches(r2, s, m),
    ensures
        r1 == r2,
{
    assert(r1.end_position == r2.end_position);
}

} // verus!
