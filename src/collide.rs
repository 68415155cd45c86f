use vstd::prelude::*;

verus! {

use crate::scalar::Scalar;
use core::cmp::Ordering;
use crate::vec_cmp::{VecCompare, VecOrdering, axis_order, ordering_of};

/// How one box relates to another.
#[derive(Clone, Copy, PartialEq, Eq, Structural, Debug)]
pub enum CollideResult {
    /// The boxes overlap or touch, and neither encloses the other.
    Intersects,
    /// The receiver lies inside the other box.
    In,
    /// The receiver encloses the other box.
    Contains,
    /// The boxes are disjoint.
    Disjoint,
}

/// A box type whose values can be classified against boxes of type `T`.
pub trait Collide<T> {
    spec fn collision(&self, other: &T) -> CollideResult;

    fn collide(&self, other: &T) -> (r: CollideResult)
        ensures
            r == self.collision(other),
    ;
}

pub open spec fn le(o: VecOrdering) -> bool {
    o == VecOrdering::Less || o == VecOrdering::Equal
}

pub open spec fn ge(o: VecOrdering) -> bool {
    o == VecOrdering::Greater || o == VecOrdering::Equal
}

/// The decision table over the orderings of the corner pairs
/// (min against min, min against max, max against min, max against max),
/// tried in order.
pub open spec fn decide(
    min_min: VecOrdering,
    min_max: VecOrdering,
    max_min: VecOrdering,
    max_max: VecOrdering,
) -> CollideResult {
    if le(min_min) && ge(max_max) {
        CollideResult::Contains
    } else if ge(min_min) && le(max_max) {
        CollideResult::In
    } else if ge(min_min) && ge(max_max) && le(min_max) {
        CollideResult::Intersects
    } else if le(min_min) && le(max_max) && ge(max_min) {
        CollideResult::Intersects
    } else if le(min_max) && ge(max_min) {
        CollideResult::Intersects
    } else {
        CollideResult::Disjoint
    }
}

/// How the box with corners `min1`, `max1` relates to the box with corners
/// `min2`, `max2`, given as component sequences.
pub open spec fn relation(
    min1: Seq<Scalar>,
    max1: Seq<Scalar>,
    min2: Seq<Scalar>,
    max2: Seq<Scalar>,
) -> CollideResult {
    decide(
        ordering_of(min1, min2),
        ordering_of(min1, max2),
        ordering_of(max1, min2),
        ordering_of(max1, max2),
    )
}

/// The corners `min`, `max` have one length, and `min` lies at or below
/// `max` on every axis.
pub open spec fn spans(min: Seq<Scalar>, max: Seq<Scalar>) -> bool {
    &&& min.len() == max.len()
    &&& forall|i: int| 0 <= i < min.len() ==> #[trigger] min[i].rank() <= max[i].rank()
}

/// Classifies the box with corners `min1`, `max1` against the box with
/// corners `min2`, `max2`.
pub fn collide<T: VecCompare<T>>(min1: &T, max1: &T, min2: &T, max2: &T) -> (r: CollideResult)
    ensures
        r == decide(
            min1.ordering(min2),
            min1.ordering(max2),
            max1.ordering(min2),
            max1.ordering(max2),
        ),
{
    let min_min_ordering = min1.cmp(min2);
    let min_max_ordering = min1.cmp(max2);
    let max_min_ordering = max1.cmp(min2);
    let max_max_ordering = max1.cmp(max2);
    let min_min_less = min_min_ordering.is_less_or_eq();
    let min_min_greater = min_min_ordering.is_greater_or_eq();
    let min_max_less = min_max_ordering.is_less_or_eq();
    let max_min_greater = max_min_ordering.is_greater_or_eq();
    let max_max_less = max_max_ordering.is_less_or_eq();
    let max_max_greater = max_max_ordering.is_greater_or_eq();
    if min_min_less && max_max_greater {
        return CollideResult::Contains;
    }
    if min_min_greater && max_max_less {
        return CollideResult::In;
    }
    if min_min_greater && max_max_greater && min_max_less {
        return CollideResult::Intersects;
    }
    if min_min_less && max_max_less && max_min_greater {
        return CollideResult::Intersects;
    }
    if min_max_less && max_min_greater {
        return CollideResult::Intersects;
    }
    CollideResult::Disjoint
}

/// If `x` lies below `y` on axis `k`, the ordering of `x` against `y` is
/// neither `Equal` nor `Greater`.
proof fn lemma_below_on_axis(x: Seq<Scalar>, y: Seq<Scalar>, k: int)
    requires
        0 <= k < x.len(),
        y.len() == x.len(),
        x[k].rank() < y[k].rank(),
    ensures
        !ge(ordering_of(x, y)),
        !le(ordering_of(y, x)),
{
    assert(axis_order(x, y, k) == Ordering::Less);
    assert(axis_order(y, x, k) == Ordering::Greater);
}

/// A sequence of components compares `Equal` to itself.
proof fn lemma_ordering_same(x: Seq<Scalar>, y: Seq<Scalar>)
    requires
        x == y,
        x.len() > 0,
    ensures
        ordering_of(x, y) == VecOrdering::Equal,
{
    assert(axis_order(x, y, 0) == Ordering::Equal);
    assert forall|i: int| 0 <= i < x.len() implies #[trigger] axis_order(x, y, i)
        == Ordering::Equal by {
        assert(x[i] == y[i]);
    }
}

/// A box related to itself encloses itself.
pub proof fn lemma_relation_self(min: Seq<Scalar>, max: Seq<Scalar>)
    requires
        min.len() == max.len(),
        min.len() > 0,
    ensures
        relation(min, max, min, max) == CollideResult::Contains,
{
    lemma_ordering_same(min, min);
    lemma_ordering_same(max, max);
}

/// When the first box lies strictly beyond the second on both sides of
/// every axis, the first contains the second and the second lies in the first.
pub proof fn lemma_relation_enclosing(
    min1: Seq<Scalar>,
    max1: Seq<Scalar>,
    min2: Seq<Scalar>,
    max2: Seq<Scalar>,
)
    requires
        min1.len() > 0,
        max1.len() == min1.len(),
        min2.len() == min1.len(),
        max2.len() == min1.len(),
        forall|i: int|
            0 <= i < min1.len() ==> #[trigger] min1[i].rank() < min2[i].rank() && max2[i].rank()
                < max1[i].rank(),
    ensures
        relation(min1, max1, min2, max2) == CollideResult::Contains,
        relation(min2, max2, min1, max1) == CollideResult::In,
{
    assert(axis_order(max1, max2, 0) == Ordering::Greater);
    assert(axis_order(min2, min1, 0) == Ordering::Greater);
    assert(ordering_of(min1, min2) == VecOrdering::Less) by {
        assert forall|i: int| 0 <= i < min1.len() implies #[trigger] axis_order(min1, min2, i)
            == Ordering::Less by {
            assert(min1[i].rank() < min2[i].rank());
        }
    }
    assert(ordering_of(max1, max2) == VecOrdering::Greater) by {
        assert forall|i: int| 0 <= i < max1.len() implies #[trigger] axis_order(max1, max2, i)
            == Ordering::Greater by {
            assert(min1[i].rank() < min2[i].rank());
        }
    }
    assert(ordering_of(min2, min1) == VecOrdering::Greater) by {
        assert forall|i: int| 0 <= i < min2.len() implies #[trigger] axis_order(min2, min1, i)
            == Ordering::Greater by {
            assert(min1[i].rank() < min2[i].rank());
        }
    }
    assert(ordering_of(max2, max1) == VecOrdering::Less) by {
        assert forall|i: int| 0 <= i < max2.len() implies #[trigger] axis_order(max2, max1, i)
            == Ordering::Less by {
            assert(min1[i].rank() < min2[i].rank());
        }
    }
}

/// Boxes with a gap between them on some axis are disjoint, whichever is
/// asked about the other.
pub proof fn lemma_relation_apart(
    min1: Seq<Scalar>,
    max1: Seq<Scalar>,
    min2: Seq<Scalar>,
    max2: Seq<Scalar>,
    k: int,
)
    requires
        spans(min1, max1),
        spans(min2, max2),
        min2.len() == min1.len(),
        0 <= k < min1.len(),
        max1[k].rank() < min2[k].rank() || max2[k].rank() < min1[k].rank(),
    ensures
        relation(min1, max1, min2, max2) == CollideResult::Disjoint,
        relation(min2, max2, min1, max1) == CollideResult::Disjoint,
{
    assert(min1[k].rank() <= max1[k].rank());
    assert(min2[k].rank() <= max2[k].rank());
    if max1[k].rank() < min2[k].rank() {
        lemma_below_on_axis(min1, min2, k);
        lemma_below_on_axis(min1, max2, k);
        lemma_below_on_axis(max1, min2, k);
        lemma_below_on_axis(max1, max2, k);
    } else {
        lemma_below_on_axis(min2, min1, k);
        lemma_below_on_axis(min2, max1, k);
        lemma_below_on_axis(max2, min1, k);
        lemma_below_on_axis(max2, max1, k);
    }
}

} // verus!
