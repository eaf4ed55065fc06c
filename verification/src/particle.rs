use vstd::prelude::*;
use vstd::std_specs::convert::FromSpecImpl;
use crate::read::ParsedParticle;
use crate::scalar::Scalar;
use crate::vector::Vec3;

verus! {

/// A point mass.
#[derive(Clone, Copy, Debug, PartialEq, Eq, Structural, Hash)]
pub struct Particle {
    pub position: Vec3,
    pub velocity: Vec3,
    pub mass: Scalar,
}

impl Particle {
    /// The particle that a description gives.
    pub open spec fn of(value: ParsedParticle) -> Particle {
        Particle { position: value.position, velocity: value.velocity, mass: value.mass }
    }
}

impl From<ParsedParticle> for Particle {
    fn from(value: ParsedParticle) -> (r: Particle) {
        Particle { position: value.position, velocity: value.velocity, mass: value.mass }
    }
}

impl FromSpecImpl<ParsedParticle> for Particle {
    open spec fn obeys_from_spec() -> bool {
        true
    }

    open spec fn from_spec(value: ParsedParticle) -> Particle {
        Particle::of(value)
    }
}

} // verus!
