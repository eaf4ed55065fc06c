use vstd::prelude::*;
use vstd::std_specs::convert::FromSpecImpl;
use crate::particle::Particle;
use crate::read::{ParsedCollider, ParsedColliderBody};
use crate::rigid_body::RigidBody;
use crate::scalar::Scalar;
use crate::vector::Vec3;
use crate::write::{WriteCollider, WriteTransform};

verus! {

/// A body in the world, with what the solver needs to move it.
#[derive(Debug)]
pub struct Collider {
    /// This collider's unique ID.
    pub id: u32,
    /// The body of this collider.
    pub body: ColliderBody,
    /// Whether or not this collider is locked.
    /// This turns off gravity and gives it infinite mass.
    pub locked: bool,
    pub position: Vec3,
    pub previous_position: Vec3,
    pub velocity: Vec3,
}

/// Why a collider as built cannot be simulated.
#[derive(Clone, Copy, Debug, PartialEq, Eq, Structural, Hash)]
pub enum ConstructionError {
    /// The collider with this ID can move, and its mass is not a number
    /// above zero.
    NonPositiveMass { collider: u32 },
    /// The rigid body with this ID has no vertices to test for contact.
    EmptyGeometry { collider: u32 },
    /// The inverse inertia tensor of the rigid body with this ID holds an
    /// infinity or a NaN.
    NonFiniteInertia { collider: u32 },
}

/// The place of a collider in its world's sequence of colliders.
#[derive(Debug, Clone, Copy, PartialEq, Eq, Structural, PartialOrd, Ord, Hash)]
pub struct ColliderId(pub u32);

impl ColliderId {
    /// The identifier for place `i`. Places are counted in 32 bits: a larger
    /// `i` is cut down to its low 32 bits.
    pub fn new(i: usize) -> (r: ColliderId)
        ensures
            r.0 == (i as int) % 0x1_0000_0000,
            i <= u32::MAX ==> r.0 == i,
    {
        assert(i as u32 == (i as u64) % 0x1_0000_0000) by (bit_vector);
        ColliderId(#[verifier::truncate] (i as u32))
    }

    /// The place that this identifier stands for.
    pub fn index(self) -> (r: usize)
        ensures
            r == self.0,
    {
        self.0 as usize
    }
}

impl Default for ColliderId {
    fn default() -> (r: ColliderId)
        ensures
            r.0 == 0,
    {
        ColliderId(0)
    }
}

#[derive(Debug)]
pub enum ColliderBody {
    Particle(Particle),
    Rigid(RigidBody),
}

impl ColliderBody {
    /// The mass of the body, whichever kind it is.
    pub open spec fn spec_mass(&self) -> Scalar {
        match self {
            ColliderBody::Particle(particle) => particle.mass,
            ColliderBody::Rigid(rb) => rb.mass,
        }
    }

    /// The body that a description gives.
    pub open spec fn of(value: ParsedColliderBody) -> ColliderBody {
        match value {
            ParsedColliderBody::Particle(particle) => ColliderBody::Particle(
                Particle::of(particle),
            ),
            ParsedColliderBody::RigidBody(rb) => ColliderBody::Rigid(RigidBody::of(rb)),
        }
    }

    #[verifier::when_used_as_spec(spec_mass)]
    pub fn mass(&self) -> (r: Scalar)
        ensures
            r == self.spec_mass(),
    {
        match self {
            ColliderBody::Particle(particle) => particle.mass,
            ColliderBody::Rigid(rb) => rb.mass,
        }
    }
}

impl Collider {
    /// What is wrong with this collider, if anything. The mass is looked at
    /// first, then the vertices, then the inertia tensor; a locked collider
    /// may have any mass, and a particle has neither vertices nor tensor.
    pub open spec fn spec_validate(&self) -> Result<(), ConstructionError> {
        if !self.locked && !self.body.spec_mass().spec_is_positive() {
            Err(ConstructionError::NonPositiveMass { collider: self.id })
        } else {
            match self.body {
                ColliderBody::Particle(_) => Ok(()),
                ColliderBody::Rigid(rb) => if rb.vertices@.len() == 0 {
                    Err(ConstructionError::EmptyGeometry { collider: self.id })
                } else if !rb.inertia_tensor.inverse.spec_is_finite() {
                    Err(ConstructionError::NonFiniteInertia { collider: self.id })
                } else {
                    Ok(())
                },
            }
        }
    }

    /// Checks that the collider can be simulated, once its vertices and its
    /// inertia tensor have been computed.
    #[verifier::when_used_as_spec(spec_validate)]
    pub fn validate(&self) -> (r: Result<(), ConstructionError>)
        ensures
            r == self.spec_validate(),
    {
        if !self.locked && !self.body.mass().is_positive() {
            return Err(ConstructionError::NonPositiveMass { collider: self.id });
        }
        match &self.body {
            ColliderBody::Particle(_) => Ok(()),
            ColliderBody::Rigid(rb) => {
                if rb.vertices.len() == 0 {
                    Err(ConstructionError::EmptyGeometry { collider: self.id })
                } else if !rb.inertia_tensor.inverse.is_finite() {
                    Err(ConstructionError::NonFiniteInertia { collider: self.id })
                } else {
                    Ok(())
                }
            },
        }
    }

    /// The collider that a description gives: it stands where it is said to
    /// stand, and stood there a moment ago.
    pub open spec fn of(value: ParsedCollider) -> Collider {
        Collider {
            id: value.id,
            body: ColliderBody::of(value.body),
            locked: value.locked,
            position: value.position,
            previous_position: value.position,
            velocity: value.velocity,
        }
    }

    /// What a snapshot shows of this collider: its identity, its place and,
    /// for a rigid body, its turn. A particle is shown unturned.
    pub open spec fn written(&self) -> WriteCollider {
        WriteCollider {
            id: self.id,
            transform: match self.body {
                ColliderBody::Particle(_) => WriteTransform::spec_from_translate(self.position),
                ColliderBody::Rigid(rb) => WriteTransform {
                    translate: self.position,
                    rotate: rb.rotation,
                },
            },
        }
    }
}

impl std::hash::Hash for Collider {
    /// Feeds the collider's ID, and nothing else of it, to `Hasher::write_u32`.
    #[verifier::external_body]
    fn hash<H: std::hash::Hasher>(&self, state: &mut H) {
        state.write_u32(self.id);
    }
}

impl From<ParsedCollider> for Collider {
    fn from(value: ParsedCollider) -> (r: Collider) {
        Collider {
            id: value.id,
            locked: value.locked,
            body: ColliderBody::from(value.body),
            position: value.position,
            previous_position: value.position,
            velocity: value.velocity,
        }
    }
}

impl FromSpecImpl<ParsedCollider> for Collider {
    open spec fn obeys_from_spec() -> bool {
        true
    }

    open spec fn from_spec(value: ParsedCollider) -> Collider {
        Collider::of(value)
    }
}

impl From<ParsedColliderBody> for ColliderBody {
    fn from(value: ParsedColliderBody) -> (r: ColliderBody) {
        match value {
            ParsedColliderBody::Particle(particle) => ColliderBody::Particle(
                Particle::from(particle),
            ),
            ParsedColliderBody::RigidBody(rb) => ColliderBody::Rigid(RigidBody::from(rb)),
        }
    }
}

impl FromSpecImpl<ParsedColliderBody> for ColliderBody {
    open spec fn obeys_from_spec() -> bool {
        true
    }

    open spec fn from_spec(value: ParsedColliderBody) -> ColliderBody {
        ColliderBody::of(value)
    }
}

impl<'a> From<&'a Collider> for WriteCollider {
    fn from(value: &'a Collider) -> (r: WriteCollider) {
        let transform = match &value.body {
            ColliderBody::Particle(_) => WriteTransform::from_translate(value.position),
            ColliderBody::Rigid(rb) => WriteTransform {
                translate: value.position,
                rotate: rb.rotation,
            },
        };
        WriteCollider { id: value.id, transform }
    }
}

impl<'a> FromSpecImpl<&'a Collider> for WriteCollider {
    open spec fn obeys_from_spec() -> bool {
        true
    }

    open spec fn from_spec(value: &'a Collider) -> WriteCollider {
        value.written()
    }
}

} // verus!
