use vstd::prelude::*;

verus! {

use crate::scalar::Scalar;

/// A three-component vector of double-precision coordinates.
#[derive(Clone, Copy, PartialEq, Eq, Structural, Debug, Default)]
pub struct Vec3f {
    pub x: Scalar,
    pub y: Scalar,
    pub z: Scalar,
}

impl View for Vec3f {
    type V = Seq<Scalar>;

    /// The components, in axis order.
    open spec fn view(&self) -> Seq<Scalar> {
        seq![self.x, self.y, self.z]
    }
}

impl Vec3f {
    pub fn new(x: Scalar, y: Scalar, z: Scalar) -> (r: Vec3f)
        ensures
            r.x == x,
            r.y == y,
            r.z == z,
    {
        Vec3f { x, y, z }
    }

    /// The vector whose components are all positive zero.
    pub fn zero() -> (r: Vec3f)
        ensures
            r.x.bits == 0,
            r.y.bits == 0,
            r.z.bits == 0,
    {
        Vec3f::new(Scalar::zero(), Scalar::zero(), Scalar::zero())
    }

    /// Component-wise absolute value.
    pub fn abs(&self) -> (r: Vec3f)
        ensures
            r.x.bits == self.x.bits % crate::scalar::SIGN_BIT,
            r.y.bits == self.y.bits % crate::scalar::SIGN_BIT,
            r.z.bits == self.z.bits % crate::scalar::SIGN_BIT,
    {
        Vec3f::new(self.x.abs(), self.y.abs(), self.z.abs())
    }

    /// Component-wise negation.
    pub fn neg(&self) -> (r: Vec3f)
        ensures
            r.x.bits == (self.x.bits + crate::scalar::SIGN_BIT) % 0x1_0000_0000_0000_0000,
            r.y.bits == (self.y.bits + crate::scalar::SIGN_BIT) % 0x1_0000_0000_0000_0000,
            r.z.bits == (self.z.bits + crate::scalar::SIGN_BIT) % 0x1_0000_0000_0000_0000,
    {
        Vec3f::new(self.x.neg(), self.y.neg(), self.z.neg())
    }
}

} // verus!
