//! A scene: an ordered collection of shapes reduced to one signed distance by
//! a binary combinator. With the default `Min` combinator the scene is the
//! union of its shapes; the scene itself has the shape capability, so scenes
//! compose with the rest of the pipeline.

use vstd::prelude::*;

verus! {

use crate::shape::{Shape, SceneObject, COORD_LIMIT, DIST_LIMIT, FAR};
use crate::vec3::{Vec3, V3};

/// The binary reduction operator over per-shape distances. Both variants are
/// associative and commutative, so the reduction order cannot be observed.
#[derive(Clone, Copy, PartialEq, Eq, Structural, Debug)]
pub enum Combinator {
    Min,
    Max,
}

impl Combinator {
    /// The combinator as a mathematical binary operator.
    pub open spec fn apply_spec(self, a: int, b: int) -> int {
        match self {
            Combinator::Min => vstd::math::min(a, b),
            Combinator::Max => vstd::math::max(a, b),
        }
    }

    /// Applies the combinator to two distances.
    pub fn apply(self, a: i64, b: i64) -> (r: i64)
        ensures
            r == self.apply_spec(a as int, b as int),
    {
        match self {
            Combinator::Min => crate::math::min_i64(a, b),
            Combinator::Max => crate::math::max_i64(a, b),
        }
    }
}

/// Left fold of the shapes' distances at `pos` under the combinator; the
/// empty scene evaluates to `FAR` ("no surface anywhere").
pub open spec fn scene_sdf_seq(shapes: Seq<SceneObject>, comb: Combinator, pos: V3) -> int
    decreases shapes.len(),
{
    if shapes.len() == 0 {
        FAR as int
    } else if shapes.len() == 1 {
        shapes[0].sdf(pos)
    } else {
        comb.apply_spec(scene_sdf_seq(shapes.drop_last(), comb, pos), shapes.last().sdf(pos))
    }
}

/// An ordered collection of shapes with one reduction combinator. The scene
/// owns its shapes exclusively; rendering only ever reads it.
pub struct Scene {
    pub shapes: Vec<SceneObject>,
    pub combinator: Combinator,
}

impl Default for Scene {
    /// The empty scene under the union (`Min`) combinator.
    fn default() -> (s: Scene)
        ensures
            s.shapes@ =~= Seq::<SceneObject>::empty(),
            s.combinator == Combinator::Min,
    {
        Scene { shapes: Vec::new(), combinator: Combinator::Min }
    }
}

impl Scene {
    /// An empty scene with the given combinator.
    pub fn new(combinator: Combinator) -> (s: Scene)
        ensures
            s.shapes@ =~= Seq::<SceneObject>::empty(),
            s.combinator == combinator,
    {
        Scene { shapes: Vec::new(), combinator }
    }

    /// Appends one object to the scene.
    pub fn add(&mut self, object: SceneObject)
        ensures
            final(self).shapes@ =~= old(self).shapes@.push(object),
            final(self).combinator == old(self).combinator,
    {
        self.shapes.push(object);
    }
}

impl Shape for Scene {
    open spec fn wf(&self) -> bool {
        forall|i: int| 0 <= i < self.shapes@.len() ==> self.shapes@[i].wf()
    }

    open spec fn sdf(&self, pos: V3) -> int {
        scene_sdf_seq(self.shapes@, self.combinator, pos)
    }

    fn get_signed_distance(&self, pos: Vec3) -> (d: i64) {
        if self.shapes.len() == 0 {
            return FAR;
        }
        let mut acc: i64 = self.shapes[0].get_signed_distance(pos);
        let mut i: usize = 1;
        while i < self.shapes.len()
            invariant
                1 <= i <= self.shapes@.len(),
                self.wf(),
                pos@.in_bounds(DIST_LIMIT as int),
                acc == scene_sdf_seq(self.shapes@.take(i as int), self.combinator, pos@),
                -COORD_LIMIT <= acc,
                acc <= FAR + 3 * pos@.linf() + 3 * (COORD_LIMIT as int),
            decreases self.shapes@.len() - i,
        {
            let di = self.shapes[i].get_signed_distance(pos);
            acc = self.combinator.apply(acc, di);
            proof {
                assert(self.shapes@.take(i as int + 1).drop_last() =~= self.shapes@.take(
                    i as int,
                ));
                assert(self.shapes@.take(i as int + 1).last() == self.shapes@[i as int]);
            }
            i += 1;
        }
        proof {
            assert(self.shapes@.take(self.shapes@.len() as int) =~= self.shapes@);
        }
        acc
    }
}

/// Union law: under the `Min` combinator, the distance of a two-shape scene
/// at any point is the pointwise minimum of the two shapes' distances there.
pub proof fn lemma_union_min(scene: Scene, a: SceneObject, b: SceneObject, p: V3)
    requires
        scene.combinator == Combinator::Min,
        scene.shapes@ =~= seq![a, b],
    ensures
        scene.sdf(p) == vstd::math::min(a.sdf(p), b.sdf(p)),
{
    let s = scene.shapes@;
    assert(s == seq![a, b]);
    assert(s.len() == 2);
    assert(s.drop_last() =~= seq![a]);
    assert(s.last() == b);
    assert(scene_sdf_seq(seq![a], Combinator::Min, p) == a.sdf(p));
    assert(scene.sdf(p) == Combinator::Min.apply_spec(
        scene_sdf_seq(s.drop_last(), Combinator::Min, p),
        s.last().sdf(p),
    ));
}

} // verus!
