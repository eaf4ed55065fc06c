use vstd::prelude::*;
use crate::collider::{Collider, ColliderId};
use crate::scalar::Scalar;
use crate::vector::Vec3;

pub mod collision;

verus! {

/// A condition on a few colliders that the solver drives towards zero error.
///
/// A constraint names its colliders by identifier. Whoever evaluates it looks
/// them up in the world and hands them in, in the order of `bodies`.
pub trait Constraint {
    /// The colliders that this constraint ties together.
    spec fn spec_bodies(&self) -> Seq<ColliderId>;

    fn bodies(&self) -> (r: Vec<ColliderId>)
        ensures
            r@ == self.spec_bodies(),
    ;

    /// Computes the constraint error (C).
    ///
    /// This value should be exactly zero when the constraint is satisfied.
    fn c(&self, bodies: &[&Collider]) -> Scalar;

    /// The gradient of the constraint (∇C) for each of the bodies.
    ///
    /// The direction of the gradient represents the direction in which C increases the most.
    /// The length of the gradient represents the amount by which C changes when moving its
    /// corresponding body by one unit.
    fn c_gradients(&self, bodies: &[&Collider]) -> (r: Vec<Vec3>)
        ensures
            r@.len() == self.spec_bodies().len(),
    ;

    /// The generalized inverse mass that each body has under this constraint.
    ///
    /// `free` holds, body by body, the generalized inverse mass at the
    /// constraint's anchor that the body would have if it could move freely,
    /// as the caller computed it. The result has one entry for each body,
    /// or none at all if `bodies` or `free` are not as many as the constraint
    /// names. A locked body always gets positive zero.
    fn inverse_masses(&self, bodies: &[&Collider], free: &[Scalar]) -> (r: Vec<Scalar>)
        ensures
            r@.len() == 0 || r@.len() == bodies@.len(),
            bodies@.len() == self.spec_bodies().len() && free@.len() == bodies@.len() ==> r@.len()
                == bodies@.len(),
            forall|i: int| 0 <= i < r@.len() && bodies@[i].locked ==> r@[i] == Scalar::spec_zero(),
    ;

    /// For each body, the point of contact from its centre of mass.
    fn anchors(&self) -> (r: Vec<Vec3>)
        ensures
            r@.len() == self.spec_bodies().len(),
    ;

    /// The inverse stiffness of this constraint; zero for a rigid one.
    fn compliance(&self) -> Scalar;
}

} // verus!
