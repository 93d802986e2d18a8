//! Triples of scalars: points, directions and colours.
use crate::scalar::Scalar;
use vstd::prelude::*;

verus! {

/// Three scalars. Whether they are a position, a direction or a colour is
/// told by the alias under which the triple is used.
#[derive(Clone, Copy, Debug, PartialEq, Eq, Structural)]
pub struct Vec3 {
    pub x: Scalar,
    pub y: Scalar,
    pub z: Scalar,
}

/// A position in space.
pub type Point3 = Vec3;

/// Linear radiance or reflectance, one scalar per channel.
pub type Color3 = Vec3;

impl Vec3 {
    /// The encoding of the threshold under which a component counts as
    /// vanished: the binary32 number nearest to 1e-8.
    pub open spec fn tiny() -> Scalar {
        Scalar { bits: 0x322b_cc77 }
    }

    /// The triple of three zeros.
    pub open spec fn zero_spec() -> Vec3 {
        Vec3 { x: Scalar::zero_spec(), y: Scalar::zero_spec(), z: Scalar::zero_spec() }
    }

    /// The triple of three ones.
    pub open spec fn ones_spec() -> Vec3 {
        Vec3 { x: Scalar::one_spec(), y: Scalar::one_spec(), z: Scalar::one_spec() }
    }

    /// Each component with its sign flipped.
    pub open spec fn neg_spec(self) -> Vec3 {
        Vec3 { x: self.x.neg_spec(), y: self.y.neg_spec(), z: self.z.neg_spec() }
    }

    /// Every component is smaller in magnitude than `tiny`.
    pub open spec fn near_zero_spec(self) -> bool {
        &&& self.x.abs_spec().lt_spec(Self::tiny())
        &&& self.y.abs_spec().lt_spec(Self::tiny())
        &&& self.z.abs_spec().lt_spec(Self::tiny())
    }

    /// Every component is a number and that number is zero.
    pub open spec fn is_zero_spec(self) -> bool {
        &&& !self.x.is_nan_spec() && self.x.value() == 0
        &&& !self.y.is_nan_spec() && self.y.value() == 0
        &&& !self.z.is_nan_spec() && self.z.value() == 0
    }

    /// Every component is finite.
    pub open spec fn is_finite_spec(self) -> bool {
        self.x.is_finite_spec() && self.y.is_finite_spec() && self.z.is_finite_spec()
    }

    /// The componentwise smaller of two triples.
    pub open spec fn min_spec(self, other: Vec3) -> Vec3 {
        Vec3 { x: self.x.min_spec(other.x), y: self.y.min_spec(other.y), z: self.z.min_spec(other.z) }
    }

    /// The componentwise larger of two triples.
    pub open spec fn max_spec(self, other: Vec3) -> Vec3 {
        Vec3 { x: self.x.max_spec(other.x), y: self.y.max_spec(other.y), z: self.z.max_spec(other.z) }
    }

    /// The zero vector is near zero: the threshold is positive.
    pub proof fn lemma_zero_is_near_zero(self)
        requires
            self.is_zero_spec(),
        ensures
            self.near_zero_spec(),
    {
        lemma_vanished_is_tiny(self.x);
        lemma_vanished_is_tiny(self.y);
        lemma_vanished_is_tiny(self.z);
    }

    pub fn new(x: Scalar, y: Scalar, z: Scalar) -> (r: Vec3)
        ensures
            r == (Vec3 { x, y, z }),
    {
        Vec3 { x, y, z }
    }

    /// The triple of three zeros.
    pub fn zero() -> (r: Vec3)
        ensures
            r == Self::zero_spec(),
            r.is_zero_spec(),
    {
        Vec3 { x: Scalar::zero(), y: Scalar::zero(), z: Scalar::zero() }
    }

    /// The triple of three ones.
    pub fn ones() -> (r: Vec3)
        ensures
            r == Self::ones_spec(),
    {
        Vec3 { x: Scalar::one(), y: Scalar::one(), z: Scalar::one() }
    }

    /// The opposite vector.
    pub fn neg(self) -> (r: Vec3)
        ensures
            r == self.neg_spec(),
    {
        Vec3 { x: self.x.neg(), y: self.y.neg(), z: self.z.neg() }
    }

    /// Whether every component is smaller in magnitude than 1e-8.
    pub fn is_near_zero(self) -> (r: bool)
        ensures
            r == self.near_zero_spec(),
    {
        let tiny = Scalar::from_bits(0x322b_cc77);
        self.x.abs().lt(tiny) && self.y.abs().lt(tiny) && self.z.abs().lt(tiny)
    }

    /// Whether every component is finite.
    pub fn is_finite(self) -> (r: bool)
        ensures
            r == self.is_finite_spec(),
    {
        self.x.is_finite() && self.y.is_finite() && self.z.is_finite()
    }

    /// The componentwise smaller of two triples.
    pub fn min(self, other: Vec3) -> (r: Vec3)
        ensures
            r == self.min_spec(other),
    {
        Vec3 { x: self.x.min(other.x), y: self.y.min(other.y), z: self.z.min(other.z) }
    }

    /// The componentwise larger of two triples.
    pub fn max(self, other: Vec3) -> (r: Vec3)
        ensures
            r == self.max_spec(other),
    {
        Vec3 { x: self.x.max(other.x), y: self.y.max(other.y), z: self.z.max(other.z) }
    }
}

/// A scalar that denotes zero lies under the vanishing threshold.
pub proof fn lemma_vanished_is_tiny(s: Scalar)
    requires
        !s.is_nan_spec(),
        s.value() == 0,
    ensures
        s.abs_spec().lt_spec(Vec3::tiny()),
{
    s.lemma_abs();
    Scalar::lemma_zero();
    assert((0x322b_cc77u32 & 0x7fff_ffff) == 0x322b_cc77 && 0x322b_cc77u32 >> 31 == 0 && !(((0x322b_cc77u32
        >> 23) & 0xff) == 255)) by (bit_vector);
    Scalar::zero_spec().lemma_rank_orders(Vec3::tiny());
}

/// A point from its three coordinates.
pub fn point3(x: Scalar, y: Scalar, z: Scalar) -> (r: Point3)
    ensures
        r == (Vec3 { x, y, z }),
{
    Vec3 { x, y, z }
}

/// A colour from its three channels.
pub fn color3(x: Scalar, y: Scalar, z: Scalar) -> (r: Color3)
    ensures
        r == (Vec3 { x, y, z }),
{
    Vec3 { x, y, z }
}

} // verus!
