use vstd::prelude::*;
use vstd::std_specs::convert::FromSpecImpl;
use crate::read::ParsedRigidBody;
use crate::scalar::{lemma_zero_and_one, Scalar};
use crate::shape::Shape;
use crate::vector::{Mat3, Quat, UVec3, Vec3};

verus! {

/// A solid of a given shape, size and mass, with the way it is turned and the
/// way it spins.
#[derive(Debug)]
pub struct RigidBody {
    /// The shape of this rigid body.
    pub shape: Shape,
    /// The scale of the rigid body, in all three dimensions.
    pub scale: Vec3,
    /// The mass of this rigid body.
    pub mass: Scalar,
    /// The resolution of the vertices, in all three dimensions.
    pub vertex_resolution: UVec3,
    /// The points of this body, in its own frame, that are tested for
    /// contact. Empty until they are given or sampled.
    pub vertices: Vec<Vec3>,
    /// The inertia tensor of this rigid body, in its own frame.
    pub inertia_tensor: InertiaTensor,
    pub rotation: Quat,
    pub previous_rotation: Quat,
    pub angular_velocity: Vec3,
    pub previous_angular_velocity: Vec3,
}

/// A count of samples along one axis: a zero stands for one.
pub open spec fn spec_at_least_one(n: u32) -> u32 {
    if n == 0 {
        1
    } else {
        n
    }
}

#[verifier::when_used_as_spec(spec_at_least_one)]
pub fn at_least_one(n: u32) -> (r: u32)
    ensures
        r == spec_at_least_one(n),
{
    if n == 0 {
        1
    } else {
        n
    }
}

/// The vertices that a body has once they were asked for: those it had, or,
/// if it had none, those that were sampled.
pub open spec fn vertices_after(had: Seq<Vec3>, sampled: Seq<Vec3>) -> Seq<Vec3> {
    if had.len() == 0 {
        sampled
    } else {
        had
    }
}

impl RigidBody {
    /// No axis is sampled zero times.
    pub open spec fn wf(&self) -> bool {
        self.vertex_resolution.x != 0 && self.vertex_resolution.y != 0
            && self.vertex_resolution.z != 0
    }

    /// Fills the vertices if there are none yet.
    ///
    /// `sampled` is the shape sampled at `vertex_resolution`, as the caller
    /// computed it. Vertices that are already there are left as they are,
    /// whatever `sampled` holds.
    pub fn compute_vertices(&mut self, sampled: Vec<Vec3>)
        ensures
            final(self).vertices@ == vertices_after(old(self).vertices@, sampled@),
            *final(self) == (RigidBody { vertices: final(self).vertices, ..*old(self) }),
    {
        if self.vertices.is_empty() {
            self.vertices = sampled;
        }
    }

    /// Rebuilds the inertia tensor from the reciprocals of the principal
    /// moments of the shape at its present scale, as the caller computed
    /// them. To be called again whenever shape or scale has changed.
    pub fn compute_inertia_tensor(&mut self, reciprocal_moments: Vec3)
        ensures
            *final(self) == (RigidBody {
                inertia_tensor: InertiaTensor::spec_new(reciprocal_moments),
                ..*old(self)
            }),
    {
        self.inertia_tensor = InertiaTensor::new(reciprocal_moments);
    }
}

impl From<ParsedRigidBody> for RigidBody {
    /// The body as described, at rest: it does not spin, it was turned the
    /// same way a moment ago, and its inertia tensor is still to be
    /// computed. A resolution of zero along an axis becomes one.
    fn from(value: ParsedRigidBody) -> (r: RigidBody) {
        RigidBody {
            shape: Shape::from(value.shape),
            mass: value.mass,
            vertex_resolution: UVec3 {
                x: at_least_one(value.vertex_resolution.x),
                y: at_least_one(value.vertex_resolution.y),
                z: at_least_one(value.vertex_resolution.z),
            },
            vertices: value.vertices,
            inertia_tensor: InertiaTensor::infinity(),
            previous_rotation: value.transform.rotate,
            angular_velocity: Vec3::zero(),
            previous_angular_velocity: Vec3::zero(),
            rotation: value.transform.rotate,
            scale: value.transform.scale,
        }
    }
}

impl FromSpecImpl<ParsedRigidBody> for RigidBody {
    open spec fn obeys_from_spec() -> bool {
        true
    }

    open spec fn from_spec(value: ParsedRigidBody) -> RigidBody {
        RigidBody::of(value)
    }
}

impl RigidBody {
    /// The rigid body that a description gives.
    pub open spec fn of(value: ParsedRigidBody) -> RigidBody {
        RigidBody {
            shape: Shape::of(value.shape),
            scale: value.transform.scale,
            mass: value.mass,
            vertex_resolution: UVec3 {
                x: spec_at_least_one(value.vertex_resolution.x),
                y: spec_at_least_one(value.vertex_resolution.y),
                z: spec_at_least_one(value.vertex_resolution.z),
            },
            vertices: value.vertices,
            inertia_tensor: InertiaTensor::spec_infinity(),
            rotation: value.transform.rotate,
            previous_rotation: value.transform.rotate,
            angular_velocity: Vec3::spec_zero(),
            previous_angular_velocity: Vec3::spec_zero(),
        }
    }
}

/// The inertia tensor of a body, kept as its inverse: every use of it needs
/// the inverse. A body that cannot be turned has the all-zero inverse.
#[derive(Clone, Copy, Debug, PartialEq, Eq, Structural, Hash)]
pub struct InertiaTensor {
    pub inverse: Mat3,
}

impl InertiaTensor {
    /// The tensor of a body that cannot be turned: its inverse is the zero
    /// matrix.
    pub open spec fn spec_infinity() -> InertiaTensor {
        InertiaTensor { inverse: Mat3::spec_zero() }
    }

    /// The tensor that `new` builds from the reciprocals of the principal
    /// moments: each goes on the diagonal if it is finite, and positive zero
    /// stands in its place if it is not.
    pub open spec fn spec_new(reciprocal_moments: Vec3) -> InertiaTensor {
        InertiaTensor {
            inverse: Mat3::spec_from_diagonal(
                Vec3 {
                    x: reciprocal_moments.x.spec_finite_or_zero(),
                    y: reciprocal_moments.y.spec_finite_or_zero(),
                    z: reciprocal_moments.z.spec_finite_or_zero(),
                },
            ),
        }
    }

    /// The inverse is, bit for bit, the zero matrix.
    pub open spec fn spec_is_infinite(&self) -> bool {
        self.inverse == Mat3::spec_zero()
    }

    /// Some element of the inverse is a NaN.
    pub open spec fn spec_is_nan(&self) -> bool {
        self.inverse.spec_is_nan()
    }

    /// Neither infinite nor holding a NaN.
    pub open spec fn spec_is_finite(&self) -> bool {
        !self.spec_is_infinite() && !self.spec_is_nan()
    }

    #[verifier::when_used_as_spec(spec_infinity)]
    pub fn infinity() -> (r: InertiaTensor)
        ensures
            r == InertiaTensor::spec_infinity(),
    {
        InertiaTensor { inverse: Mat3::zero() }
    }

    /// The tensor with the given principal moments, from their reciprocals.
    ///
    /// `reciprocal_moments` holds one divided by each principal moment, as
    /// the caller computed it. A moment of zero gives an infinite reciprocal:
    /// the body cannot be turned about that axis, and the inverse has
    /// positive zero there. The other axes keep their reciprocals, so that no
    /// infinity or NaN gets into the inverse.
    #[verifier::when_used_as_spec(spec_new)]
    pub fn new(reciprocal_moments: Vec3) -> (r: InertiaTensor)
        ensures
            r == InertiaTensor::spec_new(reciprocal_moments),
    {
        let diagonal = Vec3 {
            x: reciprocal_moments.x.finite_or_zero(),
            y: reciprocal_moments.y.finite_or_zero(),
            z: reciprocal_moments.z.finite_or_zero(),
        };
        InertiaTensor::from_inverse_tensor(Mat3::from_diagonal(diagonal))
    }

    pub fn from_inverse_tensor(inverse_tensor: Mat3) -> (r: InertiaTensor)
        ensures
            r.inverse == inverse_tensor,
    {
        InertiaTensor { inverse: inverse_tensor }
    }

    pub fn inverse(self) -> (r: Mat3)
        ensures
            r == self.inverse,
    {
        self.inverse
    }

    pub fn inverse_mut(&mut self) -> (r: &mut Mat3)
        ensures
            *r == old(self).inverse,
            final(self).inverse == *final(r),
    {
        &mut self.inverse
    }

    #[verifier::when_used_as_spec(spec_is_finite)]
    pub fn is_finite(&self) -> (r: bool)
        ensures
            r == self.spec_is_finite(),
    {
        !self.is_infinite() && !self.is_nan()
    }

    #[verifier::when_used_as_spec(spec_is_infinite)]
    pub fn is_infinite(&self) -> (r: bool)
        ensures
            r == self.spec_is_infinite(),
    {
        self.inverse == Mat3::zero()
    }

    #[verifier::when_used_as_spec(spec_is_nan)]
    pub fn is_nan(&self) -> (r: bool)
        ensures
            r == self.spec_is_nan(),
    {
        self.inverse.is_nan()
    }
}

/// Once a body has vertices, asking for them again changes nothing.
pub proof fn lemma_vertices_are_kept(had: Seq<Vec3>, first: Seq<Vec3>, second: Seq<Vec3>)
    requires
        had.len() > 0 || first.len() > 0,
    ensures
        vertices_after(had, first).len() > 0,
        vertices_after(vertices_after(had, first), second) == vertices_after(had, first),
{
}

/// A body built from a description samples every axis at least once: a
/// resolution of zero along an axis has become one, and any other is kept.
pub proof fn lemma_resolution_is_never_zero(value: ParsedRigidBody)
    ensures
        RigidBody::of(value).wf(),
        value.vertex_resolution == UVec3::spec_zero() ==> RigidBody::of(value).vertex_resolution
            == UVec3::spec_one(),
        value.vertex_resolution.x != 0 && value.vertex_resolution.y != 0
            && value.vertex_resolution.z != 0 ==> RigidBody::of(value).vertex_resolution
            == value.vertex_resolution,
{
}

/// Whatever reciprocals it is made from, a tensor holds no infinity and no
/// NaN. An axis whose reciprocal is finite keeps it; an axis whose reciprocal
/// is not has positive zero, whatever the other two hold; and everything off
/// the diagonal is positive zero. If no reciprocal is finite, the tensor is
/// the infinite one.
pub proof fn lemma_new_holds_no_infinity(reciprocal_moments: Vec3)
    ensures
        InertiaTensor::spec_new(reciprocal_moments).inverse.spec_is_finite(),
        !InertiaTensor::spec_new(reciprocal_moments).spec_is_nan(),
        InertiaTensor::spec_new(reciprocal_moments).inverse.x_axis.x == if
            reciprocal_moments.x.spec_is_finite() {
            reciprocal_moments.x
        } else {
            Scalar::spec_zero()
        },
        InertiaTensor::spec_new(reciprocal_moments).inverse.y_axis.y == if
            reciprocal_moments.y.spec_is_finite() {
            reciprocal_moments.y
        } else {
            Scalar::spec_zero()
        },
        InertiaTensor::spec_new(reciprocal_moments).inverse.z_axis.z == if
            reciprocal_moments.z.spec_is_finite() {
            reciprocal_moments.z
        } else {
            Scalar::spec_zero()
        },
        reciprocal_moments.spec_is_finite() ==> InertiaTensor::spec_new(reciprocal_moments).inverse
            == Mat3::spec_from_diagonal(reciprocal_moments),
        !reciprocal_moments.x.spec_is_finite() && !reciprocal_moments.y.spec_is_finite()
            && !reciprocal_moments.z.spec_is_finite() ==> InertiaTensor::spec_new(
            reciprocal_moments,
        ) == InertiaTensor::spec_infinity(),
{
    lemma_zero_and_one();
}

/// The infinite tensor is infinite, holds no NaN and is not finite; and no
/// other tensor is infinite.
pub proof fn lemma_infinity_is_alone(tensor: InertiaTensor)
    ensures
        InertiaTensor::spec_infinity().spec_is_infinite(),
        !InertiaTensor::spec_infinity().spec_is_nan(),
        !InertiaTensor::spec_infinity().spec_is_finite(),
        tensor.spec_is_infinite() <==> tensor == InertiaTensor::spec_infinity(),
{
    lemma_zero_and_one();
}

impl Default for InertiaTensor {
    fn default() -> (r: InertiaTensor)
        ensures
            r == InertiaTensor::spec_infinity(),
    {
        InertiaTensor::infinity()
    }
}

} // verus!
