use vstd::prelude::*;
use crate::scalar::{lemma_neg_keeps_class, Scalar};

verus! {

/// Three scalars: a point, a direction or a triple of moments.
#[derive(Clone, Copy, Debug, PartialEq, Eq, Structural, Hash)]
pub struct Vec3 {
    pub x: Scalar,
    pub y: Scalar,
    pub z: Scalar,
}

impl Vec3 {
    /// All three components are positive zero.
    pub open spec fn spec_zero() -> Vec3 {
        Vec3 { x: Scalar::spec_zero(), y: Scalar::spec_zero(), z: Scalar::spec_zero() }
    }

    /// Every component is finite.
    pub open spec fn spec_is_finite(self) -> bool {
        self.x.spec_is_finite() && self.y.spec_is_finite() && self.z.spec_is_finite()
    }

    /// Some component is a NaN.
    pub open spec fn spec_is_nan(self) -> bool {
        self.x.spec_is_nan() || self.y.spec_is_nan() || self.z.spec_is_nan()
    }

    /// Every component with its sign flipped.
    pub open spec fn spec_neg(self) -> Vec3 {
        Vec3 { x: self.x.spec_neg(), y: self.y.spec_neg(), z: self.z.spec_neg() }
    }

    pub fn new(x: Scalar, y: Scalar, z: Scalar) -> (r: Vec3)
        ensures
            r == (Vec3 { x, y, z }),
    {
        Vec3 { x, y, z }
    }

    #[verifier::when_used_as_spec(spec_zero)]
    pub fn zero() -> (r: Vec3)
        ensures
            r == Vec3::spec_zero(),
    {
        Vec3 { x: Scalar::zero(), y: Scalar::zero(), z: Scalar::zero() }
    }

    #[verifier::when_used_as_spec(spec_is_finite)]
    pub fn is_finite(self) -> (r: bool)
        ensures
            r == self.spec_is_finite(),
    {
        self.x.is_finite() && self.y.is_finite() && self.z.is_finite()
    }

    #[verifier::when_used_as_spec(spec_is_nan)]
    pub fn is_nan(self) -> (r: bool)
        ensures
            r == self.spec_is_nan(),
    {
        self.x.is_nan() || self.y.is_nan() || self.z.is_nan()
    }

    #[verifier::when_used_as_spec(spec_neg)]
    pub fn neg(self) -> (r: Vec3)
        ensures
            r == self.spec_neg(),
    {
        Vec3 { x: self.x.neg(), y: self.y.neg(), z: self.z.neg() }
    }
}

/// Turning a vector round twice gives it back, and turning it round once
/// keeps it finite, or not, as it was.
pub proof fn lemma_vec3_neg(v: Vec3)
    ensures
        v.spec_neg().spec_neg() == v,
        v.spec_neg().spec_is_finite() == v.spec_is_finite(),
        v.spec_neg().spec_is_nan() == v.spec_is_nan(),
{
    lemma_neg_keeps_class(v.x);
    lemma_neg_keeps_class(v.y);
    lemma_neg_keeps_class(v.z);
}

/// Three unsigned counts, one for each axis.
#[derive(Clone, Copy, Debug, PartialEq, Eq, Structural, Hash)]
pub struct UVec3 {
    pub x: u32,
    pub y: u32,
    pub z: u32,
}

impl UVec3 {
    pub open spec fn spec_zero() -> UVec3 {
        UVec3 { x: 0, y: 0, z: 0 }
    }

    pub open spec fn spec_one() -> UVec3 {
        UVec3 { x: 1, y: 1, z: 1 }
    }

    pub fn new(x: u32, y: u32, z: u32) -> (r: UVec3)
        ensures
            r == (UVec3 { x, y, z }),
    {
        UVec3 { x, y, z }
    }

    #[verifier::when_used_as_spec(spec_zero)]
    pub fn zero() -> (r: UVec3)
        ensures
            r == UVec3::spec_zero(),
    {
        UVec3 { x: 0, y: 0, z: 0 }
    }

    #[verifier::when_used_as_spec(spec_one)]
    pub fn one() -> (r: UVec3)
        ensures
            r == UVec3::spec_one(),
    {
        UVec3 { x: 1, y: 1, z: 1 }
    }
}

/// A rotation, as the four components of a quaternion.
#[derive(Clone, Copy, Debug, PartialEq, Eq, Structural, Hash)]
pub struct Quat {
    pub x: Scalar,
    pub y: Scalar,
    pub z: Scalar,
    pub w: Scalar,
}

impl Quat {
    /// No rotation: the vector part is positive zero and `w` is one.
    pub open spec fn spec_identity() -> Quat {
        Quat {
            x: Scalar::spec_zero(),
            y: Scalar::spec_zero(),
            z: Scalar::spec_zero(),
            w: Scalar::spec_one(),
        }
    }

    /// Every component is finite.
    pub open spec fn spec_is_finite(self) -> bool {
        self.x.spec_is_finite() && self.y.spec_is_finite() && self.z.spec_is_finite()
            && self.w.spec_is_finite()
    }

    pub fn from_xyzw(x: Scalar, y: Scalar, z: Scalar, w: Scalar) -> (r: Quat)
        ensures
            r == (Quat { x, y, z, w }),
    {
        Quat { x, y, z, w }
    }

    #[verifier::when_used_as_spec(spec_identity)]
    pub fn identity() -> (r: Quat)
        ensures
            r == Quat::spec_identity(),
    {
        Quat { x: Scalar::zero(), y: Scalar::zero(), z: Scalar::zero(), w: Scalar::one() }
    }

    #[verifier::when_used_as_spec(spec_is_finite)]
    pub fn is_finite(self) -> (r: bool)
        ensures
            r == self.spec_is_finite(),
    {
        self.x.is_finite() && self.y.is_finite() && self.z.is_finite() && self.w.is_finite()
    }
}

/// A 3x3 matrix, held by its three columns.
#[derive(Clone, Copy, Debug, PartialEq, Eq, Structural, Hash)]
pub struct Mat3 {
    pub x_axis: Vec3,
    pub y_axis: Vec3,
    pub z_axis: Vec3,
}

impl Mat3 {
    /// All nine elements are positive zero.
    pub open spec fn spec_zero() -> Mat3 {
        Mat3 { x_axis: Vec3::spec_zero(), y_axis: Vec3::spec_zero(), z_axis: Vec3::spec_zero() }
    }

    /// The matrix with `diagonal` on its diagonal and positive zero elsewhere.
    pub open spec fn spec_from_diagonal(diagonal: Vec3) -> Mat3 {
        Mat3 {
            x_axis: Vec3 { x: diagonal.x, y: Scalar::spec_zero(), z: Scalar::spec_zero() },
            y_axis: Vec3 { x: Scalar::spec_zero(), y: diagonal.y, z: Scalar::spec_zero() },
            z_axis: Vec3 { x: Scalar::spec_zero(), y: Scalar::spec_zero(), z: diagonal.z },
        }
    }

    /// Some element is a NaN.
    pub open spec fn spec_is_nan(&self) -> bool {
        self.x_axis.spec_is_nan() || self.y_axis.spec_is_nan() || self.z_axis.spec_is_nan()
    }

    /// Every element is finite.
    pub open spec fn spec_is_finite(&self) -> bool {
        self.x_axis.spec_is_finite() && self.y_axis.spec_is_finite()
            && self.z_axis.spec_is_finite()
    }

    pub fn from_cols(x_axis: Vec3, y_axis: Vec3, z_axis: Vec3) -> (r: Mat3)
        ensures
            r == (Mat3 { x_axis, y_axis, z_axis }),
    {
        Mat3 { x_axis, y_axis, z_axis }
    }

    #[verifier::when_used_as_spec(spec_zero)]
    pub fn zero() -> (r: Mat3)
        ensures
            r == Mat3::spec_zero(),
    {
        Mat3 { x_axis: Vec3::zero(), y_axis: Vec3::zero(), z_axis: Vec3::zero() }
    }

    #[verifier::when_used_as_spec(spec_from_diagonal)]
    pub fn from_diagonal(diagonal: Vec3) -> (r: Mat3)
        ensures
            r == Mat3::spec_from_diagonal(diagonal),
    {
        Mat3 {
            x_axis: Vec3 { x: diagonal.x, y: Scalar::zero(), z: Scalar::zero() },
            y_axis: Vec3 { x: Scalar::zero(), y: diagonal.y, z: Scalar::zero() },
            z_axis: Vec3 { x: Scalar::zero(), y: Scalar::zero(), z: diagonal.z },
        }
    }

    #[verifier::when_used_as_spec(spec_is_nan)]
    pub fn is_nan(&self) -> (r: bool)
        ensures
            r == self.spec_is_nan(),
    {
        self.x_axis.is_nan() || self.y_axis.is_nan() || self.z_axis.is_nan()
    }

    #[verifier::when_used_as_spec(spec_is_finite)]
    pub fn is_finite(&self) -> (r: bool)
        ensures
            r == self.spec_is_finite(),
    {
        self.x_axis.is_finite() && self.y_axis.is_finite() && self.z_axis.is_finite()
    }
}

} // verus!
