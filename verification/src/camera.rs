//! The viewport camera: horizontal and vertical extents and a lower-left
//! corner derived from aspect ratio and focal length, in fixed-point units.

use vstd::prelude::*;

verus! {

use crate::math::{SCALE, tdiv, div_trunc, lemma_mul_abs_bound, lemma_tdiv_bounds};
use crate::shape::COORD_LIMIT;
use crate::vec3::{Vec3, V3};

/// Viewport geometry. Immutable after construction except for `origin`,
/// which call sites may update directly.
#[derive(Clone, Copy, PartialEq, Eq, Structural, Debug)]
pub struct Camera {
    pub viewport_height: i64,
    pub viewport_width: i64,
    pub focal_length: i64,
    pub origin: Vec3,
}

impl Camera {
    /// All fields lie within the fixed-point coordinate range.
    pub open spec fn wf(self) -> bool {
        &&& -COORD_LIMIT <= self.viewport_height <= COORD_LIMIT
        &&& -COORD_LIMIT <= self.viewport_width <= COORD_LIMIT
        &&& -COORD_LIMIT <= self.focal_length <= COORD_LIMIT
        &&& self.origin@.in_bounds(COORD_LIMIT as int)
    }

    /// A camera at the world origin whose viewport width is the height
    /// scaled by the fixed-point aspect ratio.
    pub fn new(viewport_height: i64, aspect_ratio: i64, focal_length: i64) -> (c: Camera)
        requires
            -16384 <= viewport_height <= 16384,
            -262144 <= aspect_ratio <= 262144,
            -COORD_LIMIT <= focal_length <= COORD_LIMIT,
        ensures
            c.viewport_height == viewport_height,
            c.viewport_width == tdiv(aspect_ratio * viewport_height, SCALE as int),
            c.focal_length == focal_length,
            c.origin@ == (V3 { x: 0, y: 0, z: 0 }),
            c.wf(),
    {
        proof {
            lemma_mul_abs_bound(aspect_ratio as int, viewport_height as int, 262144, 16384);
            lemma_tdiv_bounds(
                aspect_ratio as int * viewport_height as int,
                SCALE as int,
                COORD_LIMIT as int,
            );
        }
        Camera {
            viewport_width: div_trunc(aspect_ratio * viewport_height, SCALE),
            viewport_height,
            focal_length,
            origin: Vec3::new(0, 0, 0),
        }
    }

    /// The viewport's horizontal extent as a vector.
    pub fn horizontal(&self) -> (v: Vec3)
        ensures
            v@ == (V3 { x: self.viewport_width as int, y: 0, z: 0 }),
    {
        Vec3::new(self.viewport_width, 0, 0)
    }

    /// The viewport's vertical extent as a vector.
    pub fn vertical(&self) -> (v: Vec3)
        ensures
            v@ == (V3 { x: 0, y: self.viewport_height as int, z: 0 }),
    {
        Vec3::new(0, self.viewport_height, 0)
    }

    /// The viewport's lower-left corner: the origin moved back by half of
    /// each extent and by the focal length along the depth axis.
    pub fn lower_left(&self) -> (v: Vec3)
        requires
            self.wf(),
        ensures
            v@ == self.origin@.minus(V3 { x: tdiv(self.viewport_width as int, 2), y: 0, z: 0 })
                .minus(V3 { x: 0, y: tdiv(self.viewport_height as int, 2), z: 0 }).minus(
                V3 { x: 0, y: 0, z: self.focal_length as int },
            ),
    {
        self.origin.minus(Vec3::new(div_trunc(self.viewport_width, 2), 0, 0)).minus(
            Vec3::new(0, div_trunc(self.viewport_height, 2), 0),
        ).minus(Vec3::new(0, 0, self.focal_length))
    }
}

} // verus!
