use vstd::prelude::*;
use crate::collider::{Collider, ColliderBody, ColliderId};
use crate::constraint::Constraint;
use crate::contact::Contact;
use crate::scalar::Scalar;
use crate::vector::{lemma_vec3_neg, Vec3};

verus! {

/// Keeps a particle out of a rigid body.
#[derive(Clone, Copy, Debug, PartialEq, Eq, Structural, Hash)]
pub struct ParticleCollisionConstraint {
    pub particle: ColliderId,
    pub rb: ColliderId,
    pub contact: Contact,
    pub compliance: Scalar,
}

/// Keeps two rigid bodies out of each other.
#[derive(Clone, Copy, Debug, PartialEq, Eq, Structural, Hash)]
pub struct RigidBodyCollisionConstraint {
    pub a: ColliderId,
    pub b: ColliderId,
    pub contact: Contact,
    pub compliance: Scalar,
}

/// A collision constraint of either kind.
#[derive(Clone, Copy, Debug, PartialEq, Eq, Structural, Hash)]
pub enum CollisionConstraint {
    Particle(ParticleCollisionConstraint),
    RigidBody(RigidBodyCollisionConstraint),
}

/// The two gradients of a contact: the first body moves against the normal,
/// the second along it.
pub open spec fn contact_gradients(contact: Contact) -> Seq<Vec3> {
    seq![contact.normal.spec_neg(), contact.normal]
}

/// The inverse mass that a body has under a constraint: positive zero if it
/// is locked, and else what it would have if it could move freely.
pub open spec fn spec_effective_inverse_mass(collider: &Collider, free: Scalar) -> Scalar {
    if collider.locked {
        Scalar::spec_zero()
    } else {
        free
    }
}

/// The inverse masses of a contact between two bodies.
///
/// There are none unless exactly two bodies and two values are handed in. If
/// the first body is not of the kind that the constraint expects
/// (`first_rigid`), or the second is not a rigid body, the constraint moves
/// nothing: both get positive zero.
pub open spec fn contact_inverse_masses(
    first_rigid: bool,
    bodies: Seq<&Collider>,
    free: Seq<Scalar>,
) -> Seq<Scalar> {
    if bodies.len() != 2 || free.len() != 2 {
        seq![]
    } else if (bodies[0].body is Rigid) != first_rigid || !(bodies[1].body is Rigid) {
        seq![Scalar::spec_zero(), Scalar::spec_zero()]
    } else {
        seq![
            spec_effective_inverse_mass(bodies[0], free[0]),
            spec_effective_inverse_mass(bodies[1], free[1]),
        ]
    }
}

/// A locked body has no inverse mass under a contact, whatever its mass and
/// shape and whatever was computed for it; a body that is free to move, in
/// a contact between bodies of the right kinds, has what was computed.
pub proof fn lemma_locked_body_has_no_inverse_mass(
    first_rigid: bool,
    bodies: Seq<&Collider>,
    free: Seq<Scalar>,
    i: int,
)
    requires
        0 <= i < contact_inverse_masses(first_rigid, bodies, free).len(),
    ensures
        contact_inverse_masses(first_rigid, bodies, free).len() == 2,
        bodies.len() == 2,
        bodies[i].locked ==> contact_inverse_masses(first_rigid, bodies, free)[i]
            == Scalar::spec_zero(),
        !bodies[i].locked && (bodies[0].body is Rigid) == first_rigid && bodies[1].body is Rigid
            ==> contact_inverse_masses(first_rigid, bodies, free)[i] == free[i],
{
}

/// The two gradients of a contact are each other's opposite: moving the
/// first body back does to the error what moving the second forward does.
pub proof fn lemma_gradients_are_opposite(contact: Contact)
    ensures
        contact_gradients(contact).len() == 2,
        contact_gradients(contact)[0] == contact_gradients(contact)[1].spec_neg(),
        contact_gradients(contact)[0].spec_neg() == contact_gradients(contact)[1],
{
    lemma_vec3_neg(contact.normal);
}

#[verifier::when_used_as_spec(spec_effective_inverse_mass)]
pub fn effective_inverse_mass(collider: &Collider, free: Scalar) -> (r: Scalar)
    ensures
        r == spec_effective_inverse_mass(collider, free),
{
    if collider.locked {
        Scalar::zero()
    } else {
        free
    }
}

fn inverse_masses_of_contact(first_rigid: bool, bodies: &[&Collider], free: &[Scalar]) -> (r: Vec<
    Scalar,
>)
    ensures
        r@ == contact_inverse_masses(first_rigid, bodies@, free@),
{
    if bodies.len() != 2 || free.len() != 2 {
        return Vec::new();
    }
    let first = bodies[0];
    let second = bodies[1];
    let first_is_rigid = match first.body {
        ColliderBody::Particle(_) => false,
        ColliderBody::Rigid(_) => true,
    };
    let second_is_rigid = match second.body {
        ColliderBody::Particle(_) => false,
        ColliderBody::Rigid(_) => true,
    };
    if first_is_rigid != first_rigid || !second_is_rigid {
        return vec![Scalar::zero(), Scalar::zero()];
    }
    let w1 = effective_inverse_mass(first, free[0]);
    let w2 = effective_inverse_mass(second, free[1]);
    vec![w1, w2]
}

impl Constraint for ParticleCollisionConstraint {
    open spec fn spec_bodies(&self) -> Seq<ColliderId> {
        seq![self.particle, self.rb]
    }

    fn bodies(&self) -> (r: Vec<ColliderId>) {
        vec![self.particle, self.rb]
    }

    /// The error of a contact is its depth.
    fn c(&self, _bodies: &[&Collider]) -> (r: Scalar)
        ensures
            r == self.contact.depth,
    {
        self.contact.depth
    }

    fn c_gradients(&self, _bodies: &[&Collider]) -> (r: Vec<Vec3>)
        ensures
            r@ == contact_gradients(self.contact),
    {
        let n = self.contact.normal;
        vec![n.neg(), n]
    }

    /// The first body is to be the particle, the second the rigid body.
    fn inverse_masses(&self, bodies: &[&Collider], free: &[Scalar]) -> (r: Vec<Scalar>)
        ensures
            r@ == contact_inverse_masses(false, bodies@, free@),
    {
        inverse_masses_of_contact(false, bodies, free)
    }

    fn anchors(&self) -> (r: Vec<Vec3>)
        ensures
            r@ == seq![self.contact.anchor1, self.contact.anchor2],
    {
        vec![self.contact.anchor1, self.contact.anchor2]
    }

    fn compliance(&self) -> (r: Scalar)
        ensures
            r == self.compliance,
    {
        self.compliance
    }
}

impl Constraint for RigidBodyCollisionConstraint {
    open spec fn spec_bodies(&self) -> Seq<ColliderId> {
        seq![self.a, self.b]
    }

    fn bodies(&self) -> (r: Vec<ColliderId>) {
        vec![self.a, self.b]
    }

    /// The error of a contact is its depth.
    fn c(&self, _bodies: &[&Collider]) -> (r: Scalar)
        ensures
            r == self.contact.depth,
    {
        self.contact.depth
    }

    fn c_gradients(&self, _bodies: &[&Collider]) -> (r: Vec<Vec3>)
        ensures
            r@ == contact_gradients(self.contact),
    {
        let n = self.contact.normal;
        vec![n.neg(), n]
    }

    /// Both bodies are to be rigid bodies.
    fn inverse_masses(&self, bodies: &[&Collider], free: &[Scalar]) -> (r: Vec<Scalar>)
        ensures
            r@ == contact_inverse_masses(true, bodies@, free@),
    {
        inverse_masses_of_contact(true, bodies, free)
    }

    fn anchors(&self) -> (r: Vec<Vec3>)
        ensures
            r@ == seq![self.contact.anchor1, self.contact.anchor2],
    {
        vec![self.contact.anchor1, self.contact.anchor2]
    }

    fn compliance(&self) -> (r: Scalar)
        ensures
            r == self.compliance,
    {
        self.compliance
    }
}

impl CollisionConstraint {
    /// The contact that this constraint resolves.
    pub open spec fn spec_contact(&self) -> Contact {
        match self {
            CollisionConstraint::Particle(constraint) => constraint.contact,
            CollisionConstraint::RigidBody(constraint) => constraint.contact,
        }
    }

    #[verifier::when_used_as_spec(spec_contact)]
    pub fn contact(&self) -> (r: Contact)
        ensures
            r == self.spec_contact(),
    {
        match self {
            CollisionConstraint::Particle(constraint) => constraint.contact,
            CollisionConstraint::RigidBody(constraint) => constraint.contact,
        }
    }
}

impl Constraint for CollisionConstraint {
    open spec fn spec_bodies(&self) -> Seq<ColliderId> {
        match self {
            CollisionConstraint::Particle(constraint) => constraint.spec_bodies(),
            CollisionConstraint::RigidBody(constraint) => constraint.spec_bodies(),
        }
    }

    fn bodies(&self) -> (r: Vec<ColliderId>) {
        match self {
            CollisionConstraint::Particle(constraint) => constraint.bodies(),
            CollisionConstraint::RigidBody(constraint) => constraint.bodies(),
        }
    }

    /// The error of a contact is its depth.
    fn c(&self, bodies: &[&Collider]) -> (r: Scalar)
        ensures
            r == self.spec_contact().depth,
    {
        match self {
            CollisionConstraint::Particle(constraint) => constraint.c(bodies),
            CollisionConstraint::RigidBody(constraint) => constraint.c(bodies),
        }
    }

    fn c_gradients(&self, bodies: &[&Collider]) -> (r: Vec<Vec3>)
        ensures
            r@ == contact_gradients(self.spec_contact()),
    {
        match self {
            CollisionConstraint::Particle(constraint) => constraint.c_gradients(bodies),
            CollisionConstraint::RigidBody(constraint) => constraint.c_gradients(bodies),
        }
    }

    fn inverse_masses(&self, bodies: &[&Collider], free: &[Scalar]) -> (r: Vec<Scalar>)
        ensures
            r@ == contact_inverse_masses(self is RigidBody, bodies@, free@),
    {
        match self {
            CollisionConstraint::Particle(constraint) => constraint.inverse_masses(bodies, free),
            CollisionConstraint::RigidBody(constraint) => constraint.inverse_masses(bodies, free),
        }
    }

    fn anchors(&self) -> (r: Vec<Vec3>)
        ensures
            r@ == seq![self.spec_contact().anchor1, self.spec_contact().anchor2],
    {
        match self {
            CollisionConstraint::Particle(constraint) => constraint.anchors(),
            CollisionConstraint::RigidBody(constraint) => constraint.anchors(),
        }
    }

    fn compliance(&self) -> (r: Scalar)
        ensures
            r == match self {
                CollisionConstraint::Particle(constraint) => constraint.compliance,
                CollisionConstraint::RigidBody(constraint) => constraint.compliance,
            },
    {
        match self {
            CollisionConstraint::Particle(constraint) => constraint.compliance(),
            CollisionConstraint::RigidBody(constraint) => constraint.compliance(),
        }
    }
}

} // verus!
