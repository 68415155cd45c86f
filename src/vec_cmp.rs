use vstd::prelude::*;

verus! {

use core::cmp::Ordering;
use crate::scalar::{Scalar, order_of};
use crate::vec2::Vec2f;
use crate::vec3::Vec3f;

/// How two vectors of one dimension relate, axis by axis.
#[derive(Clone, Copy, PartialEq, Eq, Structural, Debug)]
pub enum VecOrdering {
    /// Lower on every axis.
    Less,
    /// Higher on every axis.
    Greater,
    /// Equal on every axis.
    Equal,
    /// The axes disagree.
    Mixed,
}

/// The vector ordering that a single three-way comparison stands for.
pub open spec fn from_ordering(o: Ordering) -> VecOrdering {
    match o {
        Ordering::Less => VecOrdering::Less,
        Ordering::Equal => VecOrdering::Equal,
        Ordering::Greater => VecOrdering::Greater,
    }
}

/// The total-order comparison of `a` and `b` on axis `i`.
pub open spec fn axis_order(a: Seq<Scalar>, b: Seq<Scalar>, i: int) -> Ordering {
    order_of(a[i].rank(), b[i].rank())
}

/// The ordering of two component sequences of one length: `Less`, `Equal` or
/// `Greater` when every axis compares that way in the total order, else `Mixed`.
pub open spec fn ordering_of(a: Seq<Scalar>, b: Seq<Scalar>) -> VecOrdering {
    if forall|i: int| 0 <= i < a.len() ==> #[trigger] axis_order(a, b, i) == Ordering::Less {
        VecOrdering::Less
    } else if forall|i: int| 0 <= i < a.len() ==> #[trigger] axis_order(a, b, i) == Ordering::Equal {
        VecOrdering::Equal
    } else if forall|i: int| 0 <= i < a.len() ==> #[trigger] axis_order(a, b, i) == Ordering::Greater {
        VecOrdering::Greater
    } else {
        VecOrdering::Mixed
    }
}

/// A vector type whose values can be compared axis by axis with `T`.
pub trait VecCompare<T> {
    spec fn ordering(&self, second: &T) -> VecOrdering;

    fn cmp(&self, second: &T) -> (r: VecOrdering)
        ensures
            r == self.ordering(second),
    ;
}

impl VecOrdering {
    /// True for `Less` and `Equal`.
    pub fn is_less_or_eq(&self) -> (r: bool)
        ensures
            r == (*self == VecOrdering::Less || *self == VecOrdering::Equal),
    {
        match self {
            VecOrdering::Less => true,
            VecOrdering::Greater => false,
            VecOrdering::Equal => true,
            VecOrdering::Mixed => false,
        }
    }

    /// True for `Greater` and `Equal`.
    pub fn is_greater_or_eq(&self) -> (r: bool)
        ensures
            r == (*self == VecOrdering::Greater || *self == VecOrdering::Equal),
    {
        match self {
            VecOrdering::Less => false,
            VecOrdering::Greater => true,
            VecOrdering::Equal => true,
            VecOrdering::Mixed => false,
        }
    }
}

impl VecCompare<Vec3f> for Vec3f {
    open spec fn ordering(&self, second: &Vec3f) -> VecOrdering {
        ordering_of(self@, second@)
    }

    fn cmp(&self, second: &Vec3f) -> (r: VecOrdering) {
        let x_ordering = from_core_ordering(&self.x.total_cmp(&second.x));
        let y_ordering = from_core_ordering(&self.y.total_cmp(&second.y));
        let z_ordering = from_core_ordering(&self.z.total_cmp(&second.z));
        assert(self@[0] == self.x && self@[1] == self.y && self@[2] == self.z);
        assert(second@[0] == second.x && second@[1] == second.y && second@[2] == second.z);
        assert(x_ordering == from_ordering(axis_order(self@, second@, 0)));
        assert(y_ordering == from_ordering(axis_order(self@, second@, 1)));
        assert(z_ordering == from_ordering(axis_order(self@, second@, 2)));
        if x_ordering == y_ordering && x_ordering == z_ordering {
            return x_ordering;
        }
        VecOrdering::Mixed
    }
}

impl VecCompare<Vec2f> for Vec2f {
    open spec fn ordering(&self, second: &Vec2f) -> VecOrdering {
        ordering_of(self@, second@)
    }

    fn cmp(&self, second: &Vec2f) -> (r: VecOrdering) {
        let x_ordering = from_core_ordering(&self.x.total_cmp(&second.x));
        let y_ordering = from_core_ordering(&self.y.total_cmp(&second.y));
        assert(self@[0] == self.x && self@[1] == self.y);
        assert(second@[0] == second.x && second@[1] == second.y);
        assert(x_ordering == from_ordering(axis_order(self@, second@, 0)));
        assert(y_ordering == from_ordering(axis_order(self@, second@, 1)));
        if x_ordering == y_ordering {
            return x_ordering;
        }
        VecOrdering::Mixed
    }
}

/// Maps a three-way comparison to the matching vector ordering.
pub fn from_core_ordering(core_ordering: &Ordering) -> (r: VecOrdering)
    ensures
        r == from_ordering(*core_ordering),
{
    match core_ordering {
        Ordering::Less => VecOrdering::Less,
        Ordering::Equal => VecOrdering::Equal,
        Ordering::Greater => VecOrdering::Greater,
    }
}

/// A three-component vector compares `Equal` to itself.
pub proof fn lemma_vec3_cmp_reflexive(v: Vec3f)
    ensures
        v.ordering(&v) == VecOrdering::Equal,
{
    assert(axis_order(v@, v@, 0) == Ordering::Equal);
    assert(forall|i: int| 0 <= i < 3 ==> #[trigger] axis_order(v@, v@, i) == Ordering::Equal);
}

/// A two-component vector compares `Equal` to itself.
pub proof fn lemma_vec2_cmp_reflexive(v: Vec2f)
    ensures
        v.ordering(&v) == VecOrdering::Equal,
{
    assert(axis_order(v@, v@, 0) == Ordering::Equal);
    assert(forall|i: int| 0 <= i < 2 ==> #[trigger] axis_order(v@, v@, i) == Ordering::Equal);
}

} // verus!
