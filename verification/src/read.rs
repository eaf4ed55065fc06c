//! The description of a world as it is read in, before anything is derived
//! from it. Values of these types are taken as they are: nothing here checks
//! them.

use vstd::prelude::*;
use crate::scalar::Scalar;
use crate::vector::{Quat, UVec3, Vec3};

verus! {

/// The kind of solid that a description names.
#[derive(Clone, Copy, Debug, PartialEq, Eq, Structural, Hash)]
pub enum ParsedShape {
    Cuboid,
}

/// How a rigid body is turned and sized. Where it stands is the collider's
/// `position`.
#[derive(Clone, Copy, Debug, PartialEq, Eq, Structural, Hash)]
pub struct ParsedTransform {
    pub rotate: Quat,
    pub scale: Vec3,
}

/// A point mass as described.
#[derive(Clone, Copy, Debug, PartialEq, Eq, Structural, Hash)]
pub struct ParsedParticle {
    pub position: Vec3,
    pub velocity: Vec3,
    pub mass: Scalar,
}

/// A rigid body as described. `vertices` may be empty: they are then sampled
/// from the shape at `vertex_resolution`.
#[derive(Debug)]
pub struct ParsedRigidBody {
    pub shape: ParsedShape,
    pub mass: Scalar,
    pub vertex_resolution: UVec3,
    pub vertices: Vec<Vec3>,
    pub transform: ParsedTransform,
}

#[derive(Debug)]
pub enum ParsedColliderBody {
    Particle(ParsedParticle),
    RigidBody(ParsedRigidBody),
}

/// One collider as described.
#[derive(Debug)]
pub struct ParsedCollider {
    pub id: u32,
    pub locked: bool,
    pub body: ParsedColliderBody,
    pub position: Vec3,
    pub velocity: Vec3,
}

/// A whole world as described: how many steps to run, how long a substep
/// lasts, and the colliders in their order.
#[derive(Debug)]
pub struct ParsedWorld {
    pub steps: u32,
    pub dt: Scalar,
    pub colliders: Vec<ParsedCollider>,
}

} // verus!
