//! What a world shows of itself after a step: for each collider its identity
//! and where it is, and nothing of how the step was solved.

use vstd::prelude::*;
use crate::vector::{Quat, Vec3};

verus! {

/// Where a collider is and how it is turned.
#[derive(Clone, Copy, Debug, PartialEq, Eq, Structural, Hash)]
pub struct WriteTransform {
    pub translate: Vec3,
    pub rotate: Quat,
}

impl WriteTransform {
    /// A place without a turn.
    pub open spec fn spec_from_translate(translate: Vec3) -> WriteTransform {
        WriteTransform { translate, rotate: Quat::spec_identity() }
    }

    #[verifier::when_used_as_spec(spec_from_translate)]
    pub fn from_translate(translate: Vec3) -> (r: WriteTransform)
        ensures
            r == WriteTransform::spec_from_translate(translate),
    {
        WriteTransform { translate, rotate: Quat::identity() }
    }
}

/// One collider in a snapshot.
#[derive(Clone, Copy, Debug, PartialEq, Eq, Structural, Hash)]
pub struct WriteCollider {
    pub id: u32,
    pub transform: WriteTransform,
}

/// A snapshot of a world: one record for each collider, in the world's order.
#[derive(Debug)]
pub struct WriteWorldState {
    pub colliders: Vec<WriteCollider>,
}

} // verus!
