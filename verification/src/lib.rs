//! A sphere-tracing ("ray marching") renderer over signed-distance fields,
//! carried out in fixed-point integer arithmetic so that every step of the
//! pipeline — distance evaluation, marching, shading, image assembly — has an
//! exact, machine-checked contract.

use vstd::prelude::*;

pub mod camera;
pub mod math;
pub mod ray;
pub mod renderer;
pub mod scene;
pub mod shape;
pub mod vec3;

verus! {

use crate::vec3::Vec3;

/// Componentwise maximum of two vectors.
pub fn max(v: Vec3, other: Vec3) -> (r: Vec3)
    ensures
        r@ == v@.maxc(other@),
{
    Vec3 {
        x: if v.x >= other.x {
            v.x
        } else {
            other.x
        },
        y: if v.y >= other.y {
            v.y
        } else {
            other.y
        },
        z: if v.z >= other.z {
            v.z
        } else {
            other.z
        },
    }
}

/// Componentwise minimum of two vectors.
pub fn min(v: Vec3, other: Vec3) -> (r: Vec3)
    ensures
        r@ == v@.minc(other@),
{
    Vec3 {
        x: if v.x <= other.x {
            v.x
        } else {
            other.x
        },
        y: if v.y <= other.y {
            v.y
        } else {
            other.y
        },
        z: if v.z <= other.z {
            v.z
        } else {
            other.z
        },
    }
}

} // verus!
