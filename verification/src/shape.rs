//! The shape capability: anything that can report a signed distance from a
//! point to its boundary, together with the concrete shape variants.

use vstd::prelude::*;

verus! {

use crate::math::{sqrt_floor, lemma_sqrt_floor_correct};
use crate::vec3::{Vec3, V3};

/// Largest component magnitude allowed for shape parameters, camera and light
/// positions (256 world units in fixed-point units).
pub const COORD_LIMIT: i64 = 1_048_576;

/// Largest component magnitude at which a signed distance may be evaluated;
/// far wider than any position the marcher can reach.
pub const DIST_LIMIT: i64 = 20_000_000_000_000;

/// The distance reported by an empty scene: no surface anywhere, effectively
/// infinite next to every reachable position.
pub const FAR: i64 = 1_000_000_000;

/// The signed-distance capability. `sdf` is the shape's mathematical signed
/// distance — negative inside, zero on the boundary shell, positive outside —
/// and `get_signed_distance` computes exactly that value, bounded below by
/// `-COORD_LIMIT` and above by an affine function of the query point, which is
/// what keeps the marching loop's arithmetic in range.
pub trait Shape: Sized {
    /// Shape parameters lie within the fixed-point range the renderer is
    /// proven safe for.
    spec fn wf(&self) -> bool;

    /// The shape's signed distance at `pos`, in fixed-point units.
    spec fn sdf(&self, pos: V3) -> int;

    /// Computes the signed distance at `pos`.
    fn get_signed_distance(&self, pos: Vec3) -> (d: i64)
        requires
            self.wf(),
            pos@.in_bounds(DIST_LIMIT as int),
        ensures
            d == self.sdf(pos@),
            -COORD_LIMIT <= d,
            d <= FAR + 3 * pos@.linf() + 3 * (COORD_LIMIT as int),
    ;
}

/// A sphere: center and radius in fixed-point units.
#[derive(Clone, Copy, PartialEq, Eq, Structural, Debug)]
pub struct Sphere {
    pub center: Vec3,
    pub radius: i64,
}

impl Shape for Sphere {
    open spec fn wf(&self) -> bool {
        &&& self.center@.in_bounds(COORD_LIMIT as int)
        &&& -COORD_LIMIT <= self.radius <= COORD_LIMIT
    }

    open spec fn sdf(&self, pos: V3) -> int {
        pos.minus(self.center@).norm() - self.radius
    }

    fn get_signed_distance(&self, pos: Vec3) -> (d: i64) {
        let delta = pos.minus(self.center);
        let n = delta.norm();
        n - self.radius
    }
}

/// An axis-aligned box: center and half-extents in fixed-point units. For a
/// point outside the box the distance is exact; inside it degrades to zero,
/// which is all the surface-contact test needs.
#[derive(Clone, Copy, PartialEq, Eq, Structural, Debug)]
pub struct Cube {
    pub center: Vec3,
    pub size: Vec3,
}

impl Shape for Cube {
    open spec fn wf(&self) -> bool {
        &&& self.center@.in_bounds(COORD_LIMIT as int)
        &&& self.size@.in_bounds(COORD_LIMIT as int)
    }

    open spec fn sdf(&self, pos: V3) -> int {
        pos.minus(self.center@).absc().minus(self.size@).maxc(V3 { x: 0, y: 0, z: 0 }).norm()
    }

    fn get_signed_distance(&self, pos: Vec3) -> (d: i64) {
        let q = crate::max(pos.minus(self.center).absc().minus(self.size), Vec3::new(0, 0, 0));
        q.norm()
    }
}

/// One object a scene owns: the closed set of concrete shape variants.
#[derive(Clone, Copy, PartialEq, Eq, Structural, Debug)]
pub enum SceneObject {
    Sphere(Sphere),
    Cube(Cube),
}

impl Shape for SceneObject {
    open spec fn wf(&self) -> bool {
        match self {
            SceneObject::Sphere(s) => s.wf(),
            SceneObject::Cube(c) => c.wf(),
        }
    }

    open spec fn sdf(&self, pos: V3) -> int {
        match self {
            SceneObject::Sphere(s) => s.sdf(pos),
            SceneObject::Cube(c) => c.sdf(pos),
        }
    }

    fn get_signed_distance(&self, pos: Vec3) -> (d: i64) {
        match self {
            SceneObject::Sphere(s) => s.get_signed_distance(pos),
            SceneObject::Cube(c) => c.get_signed_distance(pos),
        }
    }
}

/// Sign correctness of the sphere's distance field: negative exactly at
/// points strictly inside the sphere, positive exactly at points strictly
/// outside its unit-resolution surface shell, zero exactly on that shell.
pub proof fn lemma_sphere_sdf_sign(s: Sphere, p: V3)
    requires
        0 <= s.radius,
    ensures
        s.sdf(p) < 0 <==> p.minus(s.center@).norm_sq() < s.radius * s.radius,
        s.sdf(p) > 0 <==> (s.radius + 1) * (s.radius + 1) <= p.minus(s.center@).norm_sq(),
{
    let u = p.minus(s.center@);
    let sq = u.norm_sq();
    assert(0 <= sq) by (nonlinear_arith)
        requires
            sq == u.x * u.x + u.y * u.y + u.z * u.z,
    ;
    lemma_sqrt_floor_correct(sq as nat);
    let n = sqrt_floor(sq as nat) as int;
    let r = s.radius as int;
    if n < r {
        assert(sq < r * r) by (nonlinear_arith)
            requires
                sq < (n + 1) * (n + 1),
                0 <= n,
                n + 1 <= r,
        ;
    }
    if sq < r * r {
        assert(n < r) by (nonlinear_arith)
            requires
                n * n <= sq,
                sq < r * r,
                0 <= n,
                0 <= r,
        ;
    }
    if n > r {
        assert((r + 1) * (r + 1) <= sq) by (nonlinear_arith)
            requires
                n * n <= sq,
                r + 1 <= n,
                0 <= r,
        ;
    }
    if (r + 1) * (r + 1) <= sq {
        assert(n > r) by (nonlinear_arith)
            requires
                sq < (n + 1) * (n + 1),
                (r + 1) * (r + 1) <= sq,
                0 <= n,
                0 <= r,
        ;
    }
}

/// Lagrange's identity in three dimensions: the Cauchy–Schwarz defect of two
/// vectors is the squared length of their cross product.
proof fn lemma_lagrange(ux: int, uy: int, uz: int, vx: int, vy: int, vz: int)
    ensures
        (ux * ux + uy * uy + uz * uz) * (vx * vx + vy * vy + vz * vz) - (ux * vx + uy * vy + uz
            * vz) * (ux * vx + uy * vy + uz * vz) == (uy * vz - uz * vy) * (uy * vz - uz * vy) + (
        uz * vx - ux * vz) * (uz * vx - ux * vz) + (ux * vy - uy * vx) * (ux * vy - uy * vx),
{
    let a = ux * ux + uy * uy + uz * uz;
    let b = vx * vx + vy * vy + vz * vz;
    let t = ux * vx + uy * vy + uz * vz;
    assert(a * b == (ux * ux) * b + (uy * uy) * b + (uz * uz) * b) by (nonlinear_arith)
        requires
            a == ux * ux + uy * uy + uz * uz,
    ;
    assert((ux * ux) * b == (ux * vx) * (ux * vx) + (ux * vy) * (ux * vy) + (ux * vz) * (ux
        * vz)) by (nonlinear_arith)
        requires
            b == vx * vx + vy * vy + vz * vz,
    ;
    assert((uy * uy) * b == (uy * vx) * (uy * vx) + (uy * vy) * (uy * vy) + (uy * vz) * (uy
        * vz)) by (nonlinear_arith)
        requires
            b == vx * vx + vy * vy + vz * vz,
    ;
    assert((uz * uz) * b == (uz * vx) * (uz * vx) + (uz * vy) * (uz * vy) + (uz * vz) * (uz
        * vz)) by (nonlinear_arith)
        requires
            b == vx * vx + vy * vy + vz * vz,
    ;
    assert(t * t == (ux * vx) * (ux * vx) + (uy * vy) * (uy * vy) + (uz * vz) * (uz * vz) + 2 * ((
    ux * vx) * (uy * vy)) + 2 * ((ux * vx) * (uz * vz)) + 2 * ((uy * vy) * (uz * vz)))
        by (nonlinear_arith)
        requires
            t == ux * vx + uy * vy + uz * vz,
    ;
    assert((uy * vz - uz * vy) * (uy * vz - uz * vy) == (uy * vz) * (uy * vz) + (uz * vy) * (uz
        * vy) - 2 * ((uy * vz) * (uz * vy))) by (nonlinear_arith);
    assert((uz * vx - ux * vz) * (uz * vx - ux * vz) == (uz * vx) * (uz * vx) + (ux * vz) * (ux
        * vz) - 2 * ((uz * vx) * (ux * vz))) by (nonlinear_arith);
    assert((ux * vy - uy * vx) * (ux * vy - uy * vx) == (ux * vy) * (ux * vy) + (uy * vx) * (uy
        * vx) - 2 * ((ux * vy) * (uy * vx))) by (nonlinear_arith);
    assert((uy * vz) * (uz * vy) == (uy * vy) * (uz * vz)) by (nonlinear_arith);
    assert((uz * vx) * (ux * vz) == (ux * vx) * (uz * vz)) by (nonlinear_arith);
    assert((ux * vy) * (uy * vx) == (ux * vx) * (uy * vy)) by (nonlinear_arith);
}

/// Marching safety for the sphere: where the field reports a nonnegative
/// distance, no point on or inside the sphere lies closer to the query point
/// than that distance — so advancing a ray by any step of at most the
/// reported distance can never cross the sphere's surface.
pub proof fn lemma_sphere_sdf_safe(s: Sphere, p: V3, q: V3)
    requires
        0 <= s.radius,
        0 <= s.sdf(p),
        q.minus(s.center@).norm_sq() <= s.radius * s.radius,
    ensures
        s.sdf(p) * s.sdf(p) <= q.minus(p).norm_sq(),
{
    let u = p.minus(s.center@);
    let v = q.minus(s.center@);
    let w = q.minus(p);
    let a = u.norm_sq();
    let b = v.norm_sq();
    let r = s.radius as int;
    assert(0 <= a && 0 <= b) by (nonlinear_arith)
        requires
            a == u.x * u.x + u.y * u.y + u.z * u.z,
            b == v.x * v.x + v.y * v.y + v.z * v.z,
    ;
    lemma_sqrt_floor_correct(a as nat);
    let n = sqrt_floor(a as nat) as int;
    let d = n - r;
    let t = u.dot(v);
    let c1 = u.y * v.z - u.z * v.y;
    let c2 = u.z * v.x - u.x * v.z;
    let c3 = u.x * v.y - u.y * v.x;
    lemma_lagrange(u.x, u.y, u.z, v.x, v.y, v.z);
    assert(a * b - t * t == c1 * c1 + c2 * c2 + c3 * c3);
    assert(c1 * c1 >= 0 && c2 * c2 >= 0 && c3 * c3 >= 0) by (nonlinear_arith);
    assert(t * t <= a * b);
    assert(w.norm_sq() == a - 2 * t + b) by (nonlinear_arith)
        requires
            w.x == v.x - u.x,
            w.y == v.y - u.y,
            w.z == v.z - u.z,
            a == u.x * u.x + u.y * u.y + u.z * u.z,
            b == v.x * v.x + v.y * v.y + v.z * v.z,
            t == u.x * v.x + u.y * v.y + u.z * v.z,
            w.norm_sq() == w.x * w.x + w.y * w.y + w.z * w.z,
    ;
    if t <= 0 {
        assert(d * d <= a) by (nonlinear_arith)
            requires
                0 <= d,
                d <= n,
                n * n <= a,
        ;
    } else {
        let a0 = (d + r) * (d + r);
        assert(a0 <= a) by (nonlinear_arith)
            requires
                n == d + r,
                n * n <= a,
                a0 == (d + r) * (d + r),
        ;
        let f = a + b - d * d;
        let f0 = a0 + b - d * d;
        assert(f * f - f0 * f0 - 4 * b * (a - a0) == (a - a0) * (a + a0 - 2 * b - 2 * (d
            * d))) by (nonlinear_arith)
            requires
                f == a + b - d * d,
                f0 == a0 + b - d * d,
        ;
        assert((a - a0) * (a + a0 - 2 * b - 2 * (d * d)) >= 0) by (nonlinear_arith)
            requires
                a0 <= a,
                a0 == (d + r) * (d + r),
                0 <= b <= r * r,
                0 <= d,
                0 <= r,
        ;
        assert(f0 * f0 - 4 * a0 * b == (b - r * r) * (b - (2 * d + r) * (2 * d + r)))
            by (nonlinear_arith)
            requires
                f0 == a0 + b - d * d,
                a0 == (d + r) * (d + r),
        ;
        assert((b - r * r) * (b - (2 * d + r) * (2 * d + r)) >= 0) by (nonlinear_arith)
            requires
                0 <= b <= r * r,
                0 <= d,
                0 <= r,
        ;
        assert(4 * b * (a - a0) >= 0) by (nonlinear_arith)
            requires
                0 <= b,
                a0 <= a,
        ;
        assert(4 * a0 * b + 4 * b * (a - a0) == 4 * a * b) by (nonlinear_arith);
        assert(f * f >= 4 * a * b);
        assert(f >= 0) by (nonlinear_arith)
            requires
                f == a + b - d * d,
                a >= (d + r) * (d + r),
                0 <= b,
                0 <= d,
                0 <= r,
        ;
        assert(2 * t <= f) by (nonlinear_arith)
            requires
                t * t <= a * b,
                f * f >= 4 * a * b,
                f >= 0,
                0 < t,
        ;
    }
}

} // verus!
