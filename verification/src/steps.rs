//! The named stages of the physics simulation loop.

use vstd::prelude::*;

verus! {

/// The main steps in the physics simulation loop, in the order a substep
/// runs them.
#[derive(Clone, Copy, Debug, PartialEq, Eq, Structural, Hash)]
pub enum PhysicsStep {
    /// Preparations before the rest of the loop: world bounding boxes are
    /// refreshed from the bodies' poses.
    Prepare,
    /// Candidate collision pairs are collected by bounding-box overlap;
    /// the pairs are checked precisely later, so the expensive checks run
    /// on few pairs.
    BroadPhase,
    /// Position and velocity of each body are explicitly integrated,
    /// taking only external forces like gravity into account.
    Integrate,
    /// Constraints are iterated and bodies moved accordingly; narrow-phase
    /// checks of the candidate pairs create the non-penetration
    /// constraints solved here.
    SolvePos,
    /// New velocities are derived for all bodies from the position change.
    UpdateVel,
    /// Velocity updates from restitution, friction and joint damping are
    /// applied.
    SolveVel,
}

} // verus!
