use vstd::prelude::*;

verus! {

use crate::collide::{
    Collide, CollideResult, collide, lemma_relation_apart, lemma_relation_enclosing,
    lemma_relation_self, relation, spans,
};
use crate::scalar::{Scalar, lemma_lower_upper};
use crate::vec3::Vec3f;

/// An axis-aligned box in three dimensions, held as its lowest and highest
/// corner.
#[derive(Clone, Copy, PartialEq, Eq, Structural, Debug, Default)]
pub struct Cube {
    min: Vec3f,
    max: Vec3f,
}

impl Cube {
    /// The lowest corner.
    pub closed spec fn min_corner(&self) -> Vec3f {
        self.min
    }

    /// The highest corner.
    pub closed spec fn max_corner(&self) -> Vec3f {
        self.max
    }

    /// The lowest corner of the box spanned by two corners given in either
    /// order: on each axis the lower coordinate (see `Scalar::lower`).
    pub open spec fn spanned_min(first: Vec3f, second: Vec3f) -> Vec3f {
        Vec3f {
            x: Scalar::lower(first.x, second.x),
            y: Scalar::lower(first.y, second.y),
            z: Scalar::lower(first.z, second.z),
        }
    }

    /// The highest corner of the box spanned by two corners given in either
    /// order: on each axis the higher coordinate (see `Scalar::upper`).
    pub open spec fn spanned_max(first: Vec3f, second: Vec3f) -> Vec3f {
        Vec3f {
            x: Scalar::upper(first.x, second.x),
            y: Scalar::upper(first.y, second.y),
            z: Scalar::upper(first.z, second.z),
        }
    }

    /// `min` lies at or below `max` on every axis.
    pub open spec fn wf(&self) -> bool {
        spans(self.min_corner()@, self.max_corner()@)
    }

    /// The box spanned by two corners given in either order.
    pub fn new(first_corner: Vec3f, second_corner: Vec3f) -> (r: Cube)
        ensures
            r.min_corner() == Cube::spanned_min(first_corner, second_corner),
            r.max_corner() == Cube::spanned_max(first_corner, second_corner),
            r.wf(),
    {
        let r = Cube {
            min: Vec3f::new(
                first_corner.x.min(&second_corner.x),
                first_corner.y.min(&second_corner.y),
                first_corner.z.min(&second_corner.z),
            ),
            max: Vec3f::new(
                first_corner.x.max(&second_corner.x),
                first_corner.y.max(&second_corner.y),
                first_corner.z.max(&second_corner.z),
            ),
        };
        assert(r.min@[0] == r.min.x && r.min@[1] == r.min.y && r.min@[2] == r.min.z);
        assert(r.max@[0] == r.max.x && r.max@[1] == r.max.y && r.max@[2] == r.max.z);
        r
    }

    pub fn get_min(&self) -> (r: Vec3f)
        ensures
            r == self.min_corner(),
    {
        self.min
    }

    pub fn get_max(&self) -> (r: Vec3f)
        ensures
            r == self.max_corner(),
    {
        self.max
    }

    /// Replaces the lowest corner as given; keeping `min` at or below `max`
    /// is the caller's part.
    pub fn set_min(&mut self, min: Vec3f)
        ensures
            final(self).min_corner() == min,
            final(self).max_corner() == old(self).max_corner(),
    {
        self.min = min
    }

    /// Replaces the highest corner as given; keeping `min` at or below `max`
    /// is the caller's part.
    pub fn set_max(&mut self, max: Vec3f)
        ensures
            final(self).min_corner() == old(self).min_corner(),
            final(self).max_corner() == max,
    {
        self.max = max
    }
}

impl Collide<Cube> for Cube {
    open spec fn collision(&self, other: &Cube) -> CollideResult {
        relation(
            self.min_corner()@,
            self.max_corner()@,
            other.min_corner()@,
            other.max_corner()@,
        )
    }

    fn collide(&self, other: &Cube) -> (r: CollideResult) {
        collide(&self.get_min(), &self.get_max(), &other.get_min(), &other.get_max())
    }
}

/// Building a box from two corners does not depend on their order, and the
/// result has `min` at or below `max` on every axis. On an axis where exactly
/// one corner is a NaN, `min` and `max` are both the other corner's value; on
/// an axis where at most one is a NaN, neither `min` nor `max` is a NaN.
pub proof fn lemma_new_order_free(a: Vec3f, b: Vec3f)
    ensures
        Cube::spanned_min(a, b) == Cube::spanned_min(b, a),
        Cube::spanned_max(a, b) == Cube::spanned_max(b, a),
        spans(Cube::spanned_min(a, b)@, Cube::spanned_max(a, b)@),
        forall|i: int|
            0 <= i < 3 && a@[i].nan() != b@[i].nan() ==> {
                &&& #[trigger] Cube::spanned_min(a, b)@[i] == (if a@[i].nan() { b@[i] } else { a@[i] })
                &&& Cube::spanned_max(a, b)@[i] == (if a@[i].nan() { b@[i] } else { a@[i] })
            },
        forall|i: int|
            0 <= i < 3 && !(a@[i].nan() && b@[i].nan()) ==> {
                &&& !(#[trigger] Cube::spanned_min(a, b)@[i]).nan()
                &&& !Cube::spanned_max(a, b)@[i].nan()
            },
{
    lemma_lower_upper(a.x, b.x);
    lemma_lower_upper(a.y, b.y);
    lemma_lower_upper(a.z, b.z);
    let lo = Cube::spanned_min(a, b);
    let hi = Cube::spanned_max(a, b);
    assert(lo@.len() == 3);
    assert(forall|i: int| 0 <= i < 3 ==> #[trigger] lo@[i].rank() <= hi@[i].rank());
}

/// Every box, degenerate ones included, contains itself.
pub proof fn lemma_collide_self(a: Cube)
    ensures
        a.collision(&a) == CollideResult::Contains,
{
    lemma_relation_self(a.min_corner()@, a.max_corner()@);
}

/// When `a` reaches strictly beyond `b` on both sides of every axis, `a`
/// contains `b` and `b` lies in `a`.
pub proof fn lemma_collide_enclosing(a: Cube, b: Cube)
    requires
        forall|i: int|
            0 <= i < 3 ==> #[trigger] a.min_corner()@[i].rank() < b.min_corner()@[i].rank()
                && b.max_corner()@[i].rank() < a.max_corner()@[i].rank(),
    ensures
        a.collision(&b) == CollideResult::Contains,
        b.collision(&a) == CollideResult::In,
{
    lemma_relation_enclosing(a.min_corner()@, a.max_corner()@, b.min_corner()@, b.max_corner()@);
}

/// Well-formed boxes with a gap between them on axis `k` are disjoint,
/// whichever is asked about the other.
pub proof fn lemma_collide_apart(a: Cube, b: Cube, k: int)
    requires
        a.wf(),
        b.wf(),
        0 <= k < 3,
        a.max_corner()@[k].rank() < b.min_corner()@[k].rank() || b.max_corner()@[k].rank()
            < a.min_corner()@[k].rank(),
    ensures
        a.collision(&b) == CollideResult::Disjoint,
        b.collision(&a) == CollideResult::Disjoint,
{
    lemma_relation_apart(a.min_corner()@, a.max_corner()@, b.min_corner()@, b.max_corner()@, k);
}

} // verus!
