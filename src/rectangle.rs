use vstd::prelude::*;

verus! {

use crate::collide::{
    Collide, CollideResult, collide, lemma_relation_apart, lemma_relation_enclosing,
    lemma_relation_self, relation, spans,
};
use crate::scalar::{Scalar, lemma_lower_upper};
use crate::vec2::Vec2f;

/// An axis-aligned box in two dimensions, held as its lowest and highest
/// corner.
#[derive(Clone, Copy, PartialEq, Eq, Structural, Debug, Default)]
pub struct Rectangle {
    min: Vec2f,
    max: Vec2f,
}

impl Rectangle {
    /// The lowest corner.
    pub closed spec fn min_corner(&self) -> Vec2f {
        self.min
    }

    /// The highest corner.
    pub closed spec fn max_corner(&self) -> Vec2f {
        self.max
    }

    /// The lowest corner of the box spanned by two corners given in either
    /// order: on each axis the lower coordinate (see `Scalar::lower`).
    pub open spec fn spanned_min(first: Vec2f, second: Vec2f) -> Vec2f {
        Vec2f {
            x: Scalar::lower(first.x, second.x),
            y: Scalar::lower(first.y, second.y),
        }
    }

    /// The highest corner of the box spanned by two corners given in either
    /// order: on each axis the higher coordinate (see `Scalar::upper`).
    pub open spec fn spanned_max(first: Vec2f, second: Vec2f) -> Vec2f {
        Vec2f {
            x: Scalar::upper(first.x, second.x),
            y: Scalar::upper(first.y, second.y),
        }
    }

    /// `min` lies at or below `max` on every axis.
    pub open spec fn wf(&self) -> bool {
        spans(self.min_corner()@, self.max_corner()@)
    }

    /// The box spanned by two corners given in either order.
    pub fn new(first_corner: Vec2f, second_corner: Vec2f) -> (r: Rectangle)
        ensures
            r.min_corner() == Rectangle::spanned_min(first_corner, second_corner),
            r.max_corner() == Rectangle::spanned_max(first_corner, second_corner),
            r.wf(),
    {
        let r = Rectangle {
            min: Vec2f::new(
                first_corner.x.min(&second_corner.x),
                first_corner.y.min(&second_corner.y),
            ),
            max: Vec2f::new(
                first_corner.x.max(&second_corner.x),
                first_corner.y.max(&second_corner.y),
            ),
        };
        assert(r.min@[0] == r.min.x && r.min@[1] == r.min.y);
        assert(r.max@[0] == r.max.x && r.max@[1] == r.max.y);
        r
    }

    pub fn get_min(&self) -> (r: Vec2f)
        ensures
            r == self.min_corner(),
    {
        self.min
    }

    pub fn get_max(&self) -> (r: Vec2f)
        ensures
            r == self.max_corner(),
    {
        self.max
    }

    /// Replaces the lowest corner as given; keeping `min` at or below `max`
    /// is the caller's part.
    pub fn set_min(&mut self, min: Vec2f)
        ensures
            final(self).min_corner() == min,
            final(self).max_corner() == old(self).max_corner(),
    {
        self.min = min
    }

    /// Replaces the highest corner as given; keeping `min` at or below `max`
    /// is the caller's part.
    pub fn set_max(&mut self, max: Vec2f)
        ensures
            final(self).min_corner() == old(self).min_corner(),
            final(self).max_corner() == max,
    {
        self.max = max
    }
}

impl Collide<Rectangle> for Rectangle {
    open spec fn collision(&self, other: &Rectangle) -> CollideResult {
        relation(
            self.min_corner()@,
            self.max_corner()@,
            other.min_corner()@,
            other.max_corner()@,
        )
    }

    fn collide(&self, other: &Rectangle) -> (r: CollideResult) {
        collide(&self.get_min(), &self.get_max(), &other.get_min(), &other.get_max())
    }
}

/// Building a box from two corners does not depend on their order, and the
/// result has `min` at or below `max` on every axis. On an axis where exactly
/// one corner is a NaN, `min` and `max` are both the other corner's value; on
/// an axis where at most one is a NaN, neither `min` nor `max` is a NaN.
pub proof fn lemma_new_order_free(a: Vec2f, b: Vec2f)
    ensures
        Rectangle::spanned_min(a, b) == Rectangle::spanned_min(b, a),
        Rectangle::spanned_max(a, b) == Rectangle::spanned_max(b, a),
        spans(Rectangle::spanned_min(a, b)@, Rectangle::spanned_max(a, b)@),
        forall|i: int|
            0 <= i < 2 && a@[i].nan() != b@[i].nan() ==> {
                &&& #[trigger] Rectangle::spanned_min(a, b)@[i] == (if a@[i].nan() { b@[i] } else { a@[i] })
                &&& Rectangle::spanned_max(a, b)@[i] == (if a@[i].nan() { b@[i] } else { a@[i] })
            },
        forall|i: int|
            0 <= i < 2 && !(a@[i].nan() && b@[i].nan()) ==> {
                &&& !(#[trigger] Rectangle::spanned_min(a, b)@[i]).nan()
                &&& !Rectangle::spanned_max(a, b)@[i].nan()
            },
{
    lemma_lower_upper(a.x, b.x);
    lemma_lower_upper(a.y, b.y);
    let lo = Rectangle::spanned_min(a, b);
    let hi = Rectangle::spanned_max(a, b);
    assert(lo@.len() == 2);
    assert(forall|i: int| 0 <= i < 2 ==> #[trigger] lo@[i].rank() <= hi@[i].rank());
}

/// Every box, degenerate ones included, contains itself.
pub proof fn lemma_collide_self(a: Rectangle)
    ensures
        a.collision(&a) == CollideResult::Contains,
{
    lemma_relation_self(a.min_corner()@, a.max_corner()@);
}

/// When `a` reaches strictly beyond `b` on both sides of every axis, `a`
/// contains `b` and `b` lies in `a`.
pub proof fn lemma_collide_enclosing(a: Rectangle, b: Rectangle)
    requires
        forall|i: int|
            0 <= i < 2 ==> #[trigger] a.min_corner()@[i].rank() < b.min_corner()@[i].rank()
                && b.max_corner()@[i].rank() < a.max_corner()@[i].rank(),
    ensures
        a.collision(&b) == CollideResult::Contains,
        b.collision(&a) == CollideResult::In,
{
    lemma_relation_enclosing(a.min_corner()@, a.max_corner()@, b.min_corner()@, b.max_corner()@);
}

/// Well-formed boxes with a gap between them on axis `k` are disjoint,
/// whichever is asked about the other.
pub proof fn lemma_collide_apart(a: Rectangle, b: Rectangle, k: int)
    requires
        a.wf(),
        b.wf(),
        0 <= k < 2,
        a.max_corner()@[k].rank() < b.min_corner()@[k].rank() || b.max_corner()@[k].rank()
            < a.min_corner()@[k].rank(),
    ensures
        a.collision(&b) == CollideResult::Disjoint,
        b.collision(&a) == CollideResult::Disjoint,
{
    lemma_relation_apart(a.min_corner()@, a.max_corner()@, b.min_corner()@, b.max_corner()@, k);
}

} // verus!
