use vstd::prelude::*;
use crate::collider::{Collider, ColliderBody};
use crate::scalar::Scalar;
use crate::vector::{lemma_vec3_neg, Vec3};

verus! {

/// Where and how deeply two colliders overlap.
#[derive(Clone, Copy, Debug, PartialEq, Eq, Structural, Hash)]
pub struct Contact {
    /// The unit direction from the first collider to the second.
    pub normal: Vec3,
    /// How far the two reach into each other; positive while they overlap.
    pub depth: Scalar,
    /// The point of contact on the first collider, from its centre of mass.
    pub anchor1: Vec3,
    /// The point of contact on the second collider, from its centre of mass.
    pub anchor2: Vec3,
}

/// How the overlap of two colliders is looked for.
#[derive(Clone, Copy, Debug, PartialEq, Eq, Structural, Hash)]
pub enum ContactTest {
    /// Two particles do not overlap: there is nothing to look for.
    Nothing,
    /// The particle is tested against the rigid body, and what is found is
    /// seen from the particle. `swapped` says that the particle is the
    /// second of the two colliders.
    ParticleInRigid { swapped: bool },
    /// The vertices of the first rigid body are tested against the second,
    /// and what is found is seen from the first.
    RigidInRigid,
}

impl ContactTest {
    /// The test that the kinds of two colliders ask for.
    pub open spec fn spec_between(a: &Collider, b: &Collider) -> ContactTest {
        if a.body is Rigid && b.body is Rigid {
            ContactTest::RigidInRigid
        } else if b.body is Rigid {
            ContactTest::ParticleInRigid { swapped: false }
        } else if a.body is Rigid {
            ContactTest::ParticleInRigid { swapped: true }
        } else {
            ContactTest::Nothing
        }
    }

    /// What the test found, as seen from the first of the two colliders:
    /// turned round if the particle that it was found from is the second.
    pub open spec fn spec_seen_from_first(self, found: Contact) -> Contact {
        match self {
            ContactTest::ParticleInRigid { swapped: true } => found.spec_flipped(),
            _ => found,
        }
    }

    #[verifier::when_used_as_spec(spec_between)]
    pub fn between(a: &Collider, b: &Collider) -> (r: ContactTest)
        ensures
            r == ContactTest::spec_between(a, b),
    {
        let first_rigid = match &a.body {
            ColliderBody::Particle(_) => false,
            ColliderBody::Rigid(_) => true,
        };
        let second_rigid = match &b.body {
            ColliderBody::Particle(_) => false,
            ColliderBody::Rigid(_) => true,
        };
        if first_rigid && second_rigid {
            ContactTest::RigidInRigid
        } else if second_rigid {
            ContactTest::ParticleInRigid { swapped: false }
        } else if first_rigid {
            ContactTest::ParticleInRigid { swapped: true }
        } else {
            ContactTest::Nothing
        }
    }

    #[verifier::when_used_as_spec(spec_seen_from_first)]
    pub fn seen_from_first(self, found: Contact) -> (r: Contact)
        ensures
            r == self.spec_seen_from_first(found),
    {
        match self {
            ContactTest::ParticleInRigid { swapped: true } => found.flipped(),
            _ => found,
        }
    }
}

impl Contact {
    /// The same overlap seen from the second collider: the normal points the
    /// other way and the two anchors change places.
    pub open spec fn spec_flipped(self) -> Contact {
        Contact {
            normal: self.normal.spec_neg(),
            depth: self.depth,
            anchor1: self.anchor2,
            anchor2: self.anchor1,
        }
    }

    #[verifier::when_used_as_spec(spec_flipped)]
    pub fn flipped(self) -> (r: Contact)
        ensures
            r == self.spec_flipped(),
    {
        Contact {
            normal: self.normal.neg(),
            depth: self.depth,
            anchor1: self.anchor2,
            anchor2: self.anchor1,
        }
    }
}

/// Seen from the second collider and then from the first again, a contact is
/// what it was.
pub proof fn lemma_flipped_twice(contact: Contact)
    ensures
        contact.spec_flipped().spec_flipped() == contact,
{
    lemma_vec3_neg(contact.normal);
}

} // verus!
