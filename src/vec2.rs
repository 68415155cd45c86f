use vstd::prelude::*;

verus! {

use crate::scalar::Scalar;

/// A two-component vector of double-precision coordinates.
#[derive(Clone, Copy, PartialEq, Eq, Structural, Debug, Default)]
pub struct Vec2f {
    pub x: Scalar,
    pub y: Scalar,
}

impl View for Vec2f {
    type V = Seq<Scalar>;

    /// The components, in axis order.
    open spec fn view(&self) -> Seq<Scalar> {
        seq![self.x, self.y]
    }
}

impl Vec2f {
    pub fn new(x: Scalar, y: Scalar) -> (r: Vec2f)
        ensures
            r.x == x,
            r.y == y,
    {
        Vec2f { x, y }
    }

    /// The vector whose components are all positive zero.
    pub fn zero() -> (r: Vec2f)
        ensures
            r.x.bits == 0,
            r.y.bits == 0,
    {
        Vec2f::new(Scalar::zero(), Scalar::zero())
    }

    /// Component-wise absolute value.
    pub fn abs(&self) -> (r: Vec2f)
        ensures
            r.x.bits == self.x.bits % crate::scalar::SIGN_BIT,
            r.y.bits == self.y.bits % crate::scalar::SIGN_BIT,
    {
        Vec2f::new(self.x.abs(), self.y.abs())
    }

    /// Component-wise negation.
    pub fn neg(&self) -> (r: Vec2f)
        ensures
            r.x.bits == (self.x.bits + crate::scalar::SIGN_BIT) % 0x1_0000_0000_0000_0000,
            r.y.bits == (self.y.bits + crate::scalar::SIGN_BIT) % 0x1_0000_0000_0000_0000,
    {
        Vec2f::new(self.x.neg(), self.y.neg())
    }
}

} // verus!
