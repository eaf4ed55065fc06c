use vstd::prelude::*;
use crate::collider::{Collider, ColliderBody};
use crate::particle::Particle;
use crate::rigid_body::RigidBody;
use crate::vector::{Quat, Vec3};

verus! {

/// Where a collider is and how it moves once a frame has been solved.
///
/// A particle has no turn: for it only the first three fields count.
#[derive(Clone, Copy, Debug, PartialEq, Eq, Structural, Hash)]
pub struct Motion {
    pub position: Vec3,
    pub previous_position: Vec3,
    pub velocity: Vec3,
    pub rotation: Quat,
    pub previous_rotation: Quat,
    pub angular_velocity: Vec3,
    pub previous_angular_velocity: Vec3,
}

impl Motion {
    /// Place and velocity hold no infinity and no NaN.
    pub open spec fn spec_linear_is_finite(&self) -> bool {
        self.position.spec_is_finite() && self.previous_position.spec_is_finite()
            && self.velocity.spec_is_finite()
    }

    /// Turn and spin hold no infinity and no NaN.
    pub open spec fn spec_angular_is_finite(&self) -> bool {
        self.rotation.spec_is_finite() && self.previous_rotation.spec_is_finite()
            && self.angular_velocity.spec_is_finite()
            && self.previous_angular_velocity.spec_is_finite()
    }

    #[verifier::when_used_as_spec(spec_linear_is_finite)]
    pub fn linear_is_finite(&self) -> (r: bool)
        ensures
            r == self.spec_linear_is_finite(),
    {
        self.position.is_finite() && self.previous_position.is_finite()
            && self.velocity.is_finite()
    }

    #[verifier::when_used_as_spec(spec_angular_is_finite)]
    pub fn angular_is_finite(&self) -> (r: bool)
        ensures
            r == self.spec_angular_is_finite(),
    {
        self.rotation.is_finite() && self.previous_rotation.is_finite()
            && self.angular_velocity.is_finite() && self.previous_angular_velocity.is_finite()
    }
}

impl Collider {
    /// The motion that this collider has now.
    pub open spec fn spec_motion(&self) -> Motion {
        match self.body {
            ColliderBody::Particle(_) => Motion {
                position: self.position,
                previous_position: self.previous_position,
                velocity: self.velocity,
                rotation: Quat::spec_identity(),
                previous_rotation: Quat::spec_identity(),
                angular_velocity: Vec3::spec_zero(),
                previous_angular_velocity: Vec3::spec_zero(),
            },
            ColliderBody::Rigid(rb) => Motion {
                position: self.position,
                previous_position: self.previous_position,
                velocity: self.velocity,
                rotation: rb.rotation,
                previous_rotation: rb.previous_rotation,
                angular_velocity: rb.angular_velocity,
                previous_angular_velocity: rb.previous_angular_velocity,
            },
        }
    }

    /// The motion is fit to be kept for this collider: what it says of place
    /// and velocity is finite and, for a rigid body, what it says of turn
    /// and spin too. A locked collider reads nothing of a motion, so that
    /// any motion is fit for it.
    pub open spec fn spec_accepts(&self, motion: &Motion) -> bool {
        self.locked || (motion.spec_linear_is_finite() && (self.body is Rigid
            ==> motion.spec_angular_is_finite()))
    }

    /// The motion that the collider goes on with when another is proposed
    /// to it: the one it has if it is locked, and else the proposed one.
    pub open spec fn spec_moved(&self, from: Motion, to: Motion) -> Motion {
        if self.locked {
            from
        } else {
            to
        }
    }

    /// The velocity that the collider has once gravity has pulled at it:
    /// the one it had if it is locked, and else the accelerated one.
    pub open spec fn spec_under_gravity(&self, velocity: Vec3, accelerated: Vec3) -> Vec3 {
        if self.locked {
            velocity
        } else {
            accelerated
        }
    }

    /// This collider once the given motion was handed to it. A locked
    /// collider stays as it was. Any other has the motion in place of its
    /// own: identity, lock, mass, shape, size, vertices and inertia tensor
    /// stay, and a particle's own place and velocity follow the collider's.
    pub open spec fn advanced(self, motion: &Motion) -> Collider {
        if self.locked {
            self
        } else {
            self.with_motion(motion)
        }
    }

    /// This collider with the given motion in place of its own, locked or
    /// not.
    pub open spec fn with_motion(self, motion: &Motion) -> Collider {
        Collider {
            id: self.id,
            body: match self.body {
                ColliderBody::Particle(particle) => ColliderBody::Particle(
                    Particle {
                        position: motion.position,
                        velocity: motion.velocity,
                        mass: particle.mass,
                    },
                ),
                ColliderBody::Rigid(rb) => ColliderBody::Rigid(
                    RigidBody {
                        rotation: motion.rotation,
                        previous_rotation: motion.previous_rotation,
                        angular_velocity: motion.angular_velocity,
                        previous_angular_velocity: motion.previous_angular_velocity,
                        ..rb
                    },
                ),
            },
            locked: self.locked,
            position: motion.position,
            previous_position: motion.previous_position,
            velocity: motion.velocity,
        }
    }

    #[verifier::when_used_as_spec(spec_motion)]
    pub fn motion(&self) -> (r: Motion)
        ensures
            r == self.spec_motion(),
    {
        match &self.body {
            ColliderBody::Particle(_) => Motion {
                position: self.position,
                previous_position: self.previous_position,
                velocity: self.velocity,
                rotation: Quat::identity(),
                previous_rotation: Quat::identity(),
                angular_velocity: Vec3::zero(),
                previous_angular_velocity: Vec3::zero(),
            },
            ColliderBody::Rigid(rb) => Motion {
                position: self.position,
                previous_position: self.previous_position,
                velocity: self.velocity,
                rotation: rb.rotation,
                previous_rotation: rb.previous_rotation,
                angular_velocity: rb.angular_velocity,
                previous_angular_velocity: rb.previous_angular_velocity,
            },
        }
    }

    /// Applies gravity to a velocity of this collider. `accelerated` is the
    /// velocity after gravity has acted on it for a substep, as the caller
    /// computed it; a locked collider does not take it.
    #[verifier::when_used_as_spec(spec_under_gravity)]
    pub fn under_gravity(&self, velocity: Vec3, accelerated: Vec3) -> (r: Vec3)
        ensures
            r == self.spec_under_gravity(velocity, accelerated),
    {
        if self.locked {
            velocity
        } else {
            accelerated
        }
    }

    #[verifier::when_used_as_spec(spec_accepts)]
    pub fn accepts(&self, motion: &Motion) -> (r: bool)
        ensures
            r == self.spec_accepts(motion),
    {
        let rigid = match &self.body {
            ColliderBody::Particle(_) => false,
            ColliderBody::Rigid(_) => true,
        };
        self.locked || (motion.linear_is_finite() && (!rigid || motion.angular_is_finite()))
    }

    /// Decides between the motion that this collider has while a step is
    /// being solved and the one that the solver proposes for it. A locked
    /// collider answers neither to gravity nor to a constraint: it goes on
    /// with the motion it has.
    #[verifier::when_used_as_spec(spec_moved)]
    pub fn moved(&self, from: Motion, to: Motion) -> (r: Motion)
        ensures
            r == self.spec_moved(from, to),
    {
        if self.locked {
            from
        } else {
            to
        }
    }

    /// Takes the given motion in place of the collider's own, unless the
    /// collider is locked: then nothing of it changes.
    pub fn advance(&mut self, motion: &Motion)
        ensures
            *final(self) == old(self).advanced(motion),
    {
        if self.locked {
            return ;
        }
        self.position = motion.position;
        self.previous_position = motion.previous_position;
        self.velocity = motion.velocity;
        match &mut self.body {
            ColliderBody::Particle(particle) => {
                particle.position = motion.position;
                particle.velocity = motion.velocity;
            },
            ColliderBody::Rigid(rb) => {
                rb.rotation = motion.rotation;
                rb.previous_rotation = motion.previous_rotation;
                rb.angular_velocity = motion.angular_velocity;
                rb.previous_angular_velocity = motion.previous_angular_velocity;
            },
        }
    }
}

} // verus!
