//! Points and directions in world space, held in fixed-point units, together
//! with their mathematical model `V3` over unbounded integers.

use vstd::prelude::*;

verus! {

use crate::math::{
    SCALE, tdiv, sqrt_floor, isqrt, div_trunc, lemma_sqrt_floor_le, lemma_sqrt_floor_ge,
    lemma_mul_abs_bound, lemma_tdiv_bounds,
};

/// The mathematical model of a vector: three unbounded integers.
pub struct V3 {
    pub x: int,
    pub y: int,
    pub z: int,
}

impl V3 {
    pub open spec fn in_bounds(self, b: int) -> bool {
        &&& -b <= self.x <= b
        &&& -b <= self.y <= b
        &&& -b <= self.z <= b
    }

    /// Componentwise sum.
    pub open spec fn plus(self, o: V3) -> V3 {
        V3 { x: self.x + o.x, y: self.y + o.y, z: self.z + o.z }
    }

    /// Componentwise difference.
    pub open spec fn minus(self, o: V3) -> V3 {
        V3 { x: self.x - o.x, y: self.y - o.y, z: self.z - o.z }
    }

    /// Componentwise absolute value.
    pub open spec fn absc(self) -> V3 {
        V3 {
            x: vstd::math::abs(self.x) as int,
            y: vstd::math::abs(self.y) as int,
            z: vstd::math::abs(self.z) as int,
        }
    }

    /// Componentwise maximum.
    pub open spec fn maxc(self, o: V3) -> V3 {
        V3 {
            x: vstd::math::max(self.x, o.x),
            y: vstd::math::max(self.y, o.y),
            z: vstd::math::max(self.z, o.z),
        }
    }

    /// Componentwise minimum.
    pub open spec fn minc(self, o: V3) -> V3 {
        V3 {
            x: vstd::math::min(self.x, o.x),
            y: vstd::math::min(self.y, o.y),
            z: vstd::math::min(self.z, o.z),
        }
    }

    /// Euclidean inner product, without fixed-point rescaling.
    pub open spec fn dot(self, o: V3) -> int {
        self.x * o.x + self.y * o.y + self.z * o.z
    }

    /// Squared Euclidean length.
    pub open spec fn norm_sq(self) -> int {
        self.dot(self)
    }

    /// Euclidean length, rounded down to an integer of fixed-point units.
    pub open spec fn norm(self) -> int {
        sqrt_floor(self.norm_sq() as nat) as int
    }

    /// The largest component magnitude.
    pub open spec fn linf(self) -> int {
        vstd::math::max3(
            vstd::math::abs(self.x) as int,
            vstd::math::abs(self.y) as int,
            vstd::math::abs(self.z) as int,
        )
    }

    /// Componentwise product with a plain integer scalar, without rescaling.
    pub open spec fn timesc(self, k: int) -> V3 {
        V3 { x: self.x * k, y: self.y * k, z: self.z * k }
    }

    /// Fixed-point scaling: each component multiplied by the scalar `t` and
    /// brought back to fixed-point units by a truncating division.
    pub open spec fn scaled(self, t: int) -> V3 {
        V3 {
            x: tdiv(t * self.x, SCALE as int),
            y: tdiv(t * self.y, SCALE as int),
            z: tdiv(t * self.z, SCALE as int),
        }
    }

    /// Direction of the vector at unit fixed-point length; the zero vector
    /// when the length rounds down to zero.
    pub open spec fn unit(self) -> V3 {
        let n = self.norm();
        if n == 0 {
            V3 { x: 0, y: 0, z: 0 }
        } else {
            V3 {
                x: tdiv(self.x * SCALE as int, n),
                y: tdiv(self.y * SCALE as int, n),
                z: tdiv(self.z * SCALE as int, n),
            }
        }
    }
}

/// A point or direction in world space. One world unit is `SCALE` fixed-point
/// units; components are finite integers, so every operation is exact.
#[derive(Clone, Copy, PartialEq, Eq, Structural, Debug)]
pub struct Vec3 {
    pub x: i64,
    pub y: i64,
    pub z: i64,
}

impl View for Vec3 {
    type V = V3;

    open spec fn view(&self) -> V3 {
        V3 { x: self.x as int, y: self.y as int, z: self.z as int }
    }
}

impl Vec3 {
    pub fn new(x: i64, y: i64, z: i64) -> (r: Vec3)
        ensures
            r@ == (V3 { x: x as int, y: y as int, z: z as int }),
    {
        Vec3 { x, y, z }
    }

    pub fn plus(self, o: Vec3) -> (r: Vec3)
        requires
            self@.in_bounds(0x3fff_ffff_ffff_ffff),
            o@.in_bounds(0x3fff_ffff_ffff_ffff),
        ensures
            r@ == self@.plus(o@),
    {
        Vec3 { x: self.x + o.x, y: self.y + o.y, z: self.z + o.z }
    }

    pub fn minus(self, o: Vec3) -> (r: Vec3)
        requires
            self@.in_bounds(0x3fff_ffff_ffff_ffff),
            o@.in_bounds(0x3fff_ffff_ffff_ffff),
        ensures
            r@ == self@.minus(o@),
    {
        Vec3 { x: self.x - o.x, y: self.y - o.y, z: self.z - o.z }
    }

    /// Componentwise absolute value.
    pub fn absc(self) -> (r: Vec3)
        requires
            self@.in_bounds(0x7fff_ffff_ffff_ffff),
        ensures
            r@ == self@.absc(),
            r@.in_bounds(0x7fff_ffff_ffff_ffff),
    {
        Vec3 {
            x: if self.x >= 0 { self.x } else { -self.x },
            y: if self.y >= 0 { self.y } else { -self.y },
            z: if self.z >= 0 { self.z } else { -self.z },
        }
    }

    /// Euclidean length in fixed-point units, rounded down.
    pub fn norm(self) -> (r: i64)
        requires
            self@.in_bounds(0x4000_0000_0000_0000),
        ensures
            r == self@.norm(),
            0 <= r,
            r <= self@.absc().x + self@.absc().y + self@.absc().z,
    {
        let ax: u64 = if self.x >= 0 { self.x as u64 } else { (-self.x) as u64 };
        let ay: u64 = if self.y >= 0 { self.y as u64 } else { (-self.y) as u64 };
        let az: u64 = if self.z >= 0 { self.z as u64 } else { (-self.z) as u64 };
        proof {
            assert(ax as int * ax as int == self@.x * self@.x && ax as int * ax as int
                <= 0x4000_0000_0000_0000 * 0x4000_0000_0000_0000) by (nonlinear_arith)
                requires
                    ax as int == self@.x || ax as int == -self@.x,
                    0 <= ax as int <= 0x4000_0000_0000_0000,
            ;
            assert(ay as int * ay as int == self@.y * self@.y && ay as int * ay as int
                <= 0x4000_0000_0000_0000 * 0x4000_0000_0000_0000) by (nonlinear_arith)
                requires
                    ay as int == self@.y || ay as int == -self@.y,
                    0 <= ay as int <= 0x4000_0000_0000_0000,
            ;
            assert(az as int * az as int == self@.z * self@.z && az as int * az as int
                <= 0x4000_0000_0000_0000 * 0x4000_0000_0000_0000) by (nonlinear_arith)
                requires
                    az as int == self@.z || az as int == -self@.z,
                    0 <= az as int <= 0x4000_0000_0000_0000,
            ;
        }
        let sqx: u128 = (ax as u128) * (ax as u128);
        let sqy: u128 = (ay as u128) * (ay as u128);
        let sqz: u128 = (az as u128) * (az as u128);
        let sq: u128 = sqx + sqy + sqz;
        proof {
            assert(sq as int == self@.norm_sq());
        }
        let r: u64 = isqrt(sq);
        proof {
            let s: int = ax as int + ay as int + az as int;
            assert(sq as int <= s * s) by (nonlinear_arith)
                requires
                    sq as int == ax as int * ax as int + ay as int * ay as int + az as int
                        * az as int,
                    s == ax as int + ay as int + az as int,
                    0 <= ax as int && 0 <= ay as int && 0 <= az as int,
            ;
            assert(s * s < (s + 1) * (s + 1)) by (nonlinear_arith)
                requires
                    0 <= s,
            ;
            lemma_sqrt_floor_le(sq as int, s);
            let big: int = 8_000_000_000_000_000_000;
            assert((sq as int) < big * big);
            lemma_sqrt_floor_le(sq as int, big - 1);
        }
        r as i64
    }

    /// Direction of the vector at unit fixed-point length (`SCALE`); the zero
    /// vector when the length rounds down to zero.
    pub fn normalize(self) -> (r: Vec3)
        requires
            self@.in_bounds(0x6_0000_0000_0000),
        ensures
            r@ == self@.unit(),
            r@.in_bounds(SCALE as int),
    {
        let n: i64 = self.norm();
        if n == 0 {
            Vec3 { x: 0, y: 0, z: 0 }
        } else {
            proof {
                let sq = self@.norm_sq();
                let axx: int = vstd::math::abs(self@.x) as int;
                let ayy: int = vstd::math::abs(self@.y) as int;
                let azz: int = vstd::math::abs(self@.z) as int;
                assert(axx * axx <= sq && ayy * ayy <= sq && azz * azz <= sq) by (nonlinear_arith)
                    requires
                        sq == self@.x * self@.x + self@.y * self@.y + self@.z * self@.z,
                        axx == self@.x || axx == -self@.x,
                        ayy == self@.y || ayy == -self@.y,
                        azz == self@.z || azz == -self@.z,
                ;
                lemma_sqrt_floor_ge(sq, axx);
                lemma_sqrt_floor_ge(sq, ayy);
                lemma_sqrt_floor_ge(sq, azz);
                lemma_mul_abs_bound(self@.x, SCALE as int, n as int, SCALE as int);
                lemma_mul_abs_bound(self@.y, SCALE as int, n as int, SCALE as int);
                lemma_mul_abs_bound(self@.z, SCALE as int, n as int, SCALE as int);
                lemma_tdiv_bounds(self@.x * SCALE as int, n as int, SCALE as int);
                lemma_tdiv_bounds(self@.y * SCALE as int, n as int, SCALE as int);
                lemma_tdiv_bounds(self@.z * SCALE as int, n as int, SCALE as int);
            }
            Vec3 {
                x: div_trunc(self.x * SCALE, n),
                y: div_trunc(self.y * SCALE, n),
                z: div_trunc(self.z * SCALE, n),
            }
        }
    }

    /// Inner product, without fixed-point rescaling.
    pub fn dot(self, o: Vec3) -> (r: i64)
        requires
            self@.in_bounds(1_000_000_000),
            o@.in_bounds(1_000_000_000),
        ensures
            r == self@.dot(o@),
    {
        proof {
            lemma_mul_abs_bound(self@.x, o@.x, 1_000_000_000, 1_000_000_000);
            lemma_mul_abs_bound(self@.y, o@.y, 1_000_000_000, 1_000_000_000);
            lemma_mul_abs_bound(self@.z, o@.z, 1_000_000_000, 1_000_000_000);
        }
        self.x * o.x + self.y * o.y + self.z * o.z
    }

    /// Componentwise product with a small plain integer scalar.
    pub fn times(self, k: i64) -> (r: Vec3)
        requires
            self@.in_bounds(4),
            -0x0400_0000_0000_0000 <= k <= 0x0400_0000_0000_0000,
        ensures
            r@ == self@.timesc(k as int),
            r@.in_bounds(4 * (vstd::math::abs(k as int) as int)),
    {
        proof {
            let ka = vstd::math::abs(k as int) as int;
            lemma_mul_abs_bound(self@.x, k as int, 4, ka);
            lemma_mul_abs_bound(self@.y, k as int, 4, ka);
            lemma_mul_abs_bound(self@.z, k as int, 4, ka);
        }
        Vec3 { x: self.x * k, y: self.y * k, z: self.z * k }
    }

    /// The vector scaled by a fixed-point scalar `t`.
    pub fn scaled(self, t: i64) -> (r: Vec3)
        requires
            self@.in_bounds(8192),
            -1_000_000_000_000 <= t <= 1_000_000_000_000,
        ensures
            r@ == self@.scaled(t as int),
            r@.in_bounds(2 * (vstd::math::abs(t as int) as int)),
    {
        proof {
            let ta = vstd::math::abs(t as int) as int;
            lemma_mul_abs_bound(t as int, self@.x, ta, 8192);
            lemma_mul_abs_bound(t as int, self@.y, ta, 8192);
            lemma_mul_abs_bound(t as int, self@.z, ta, 8192);
            assert(ta * 8192 == (2 * ta) * (SCALE as int));
            lemma_tdiv_bounds(t as int * self@.x, SCALE as int, 2 * ta);
            lemma_tdiv_bounds(t as int * self@.y, SCALE as int, 2 * ta);
            lemma_tdiv_bounds(t as int * self@.z, SCALE as int, 2 * ta);
        }
        Vec3 {
            x: div_trunc(t * self.x, SCALE),
            y: div_trunc(t * self.y, SCALE),
            z: div_trunc(t * self.z, SCALE),
        }
    }
}

} // verus!
