use vstd::prelude::*;

use crate::control::JointVelocities;
use crate::errors::ControlError;
use crate::robot::{JointAngles, TwoLinkArm};
use crate::scalar::Scalar;

verus! {

/// One semi-implicit Euler update of the joint state, computed outside the
/// library from the current state, the commanded accelerations `a` and the
/// timestep `dt`: `velocity = v + a * dt`, then
/// `angles = angles + velocity * dt`.
#[derive(Clone, Copy, Debug)]
pub struct Integration {
    pub velocity: JointVelocities,
    pub angles: JointAngles,
}

/// The simulated plant: an arm and the angular velocities of its joints.
pub struct SimulatedArm {
    pub arm: TwoLinkArm,
    pub velocity: JointVelocities,
}

/// `dt` is a usable timestep: finite and positive.
pub open spec fn timestep_valid(dt: Scalar) -> bool {
    dt.finite() && Scalar { bits: 0 }.less_than(dt)
}

impl SimulatedArm {
    /// Wraps an arm at rest.
    pub fn new(arm: TwoLinkArm) -> (r: Self)
        ensures
            r.arm == arm,
            r.velocity.shoulder_angular_velocity.bits == 0,
            r.velocity.elbow_angular_velocity.bits == 0,
    {
        Self {
            arm,
            velocity: JointVelocities {
                shoulder_angular_velocity: Scalar::zero(),
                elbow_angular_velocity: Scalar::zero(),
            },
        }
    }

    /// Advances the simulation by one timestep, transactionally: a timestep
    /// that is not finite and positive is refused, then an update whose
    /// velocities are not finite; nothing changes on a refusal.  Otherwise
    /// the proposed angles go through the arm's limit checks, and only when
    /// they pass are the angles and then the velocities committed; when
    /// they fail, the previous state remains intact.
    pub fn step(&mut self, dt: Scalar, next: Integration) -> (r: Result<(), ControlError>)
        ensures
            !timestep_valid(dt) ==> r == Err::<(), ControlError>(ControlError::NonFiniteParameter),
            timestep_valid(dt) && !(next.velocity.shoulder_angular_velocity.finite()
                && next.velocity.elbow_angular_velocity.finite()) ==> r == Err::<(), ControlError>(
                ControlError::NonFiniteState,
            ),
            r is Ok <==> timestep_valid(dt) && next.velocity.shoulder_angular_velocity.finite()
                && next.velocity.elbow_angular_velocity.finite(),
            r is Ok && old(self).arm.admits(next.angles) ==> {
                &&& final(self).arm == old(self).arm.with_angles(next.angles)
                &&& final(self).arm.angles() == next.angles
                &&& final(self).velocity == next.velocity
            },
            r is Err || !old(self).arm.admits(next.angles) ==> *final(self) == *old(self),
            old(self).arm.wf() ==> final(self).arm.wf(),
    {
        if !dt.is_finite() || dt.is_at_most(Scalar::zero()) {
            return Err(ControlError::NonFiniteParameter);
        }
        let next_shoulder_vel = next.velocity.shoulder_angular_velocity;
        let next_elbow_vel = next.velocity.elbow_angular_velocity;
        if !next_shoulder_vel.is_finite() || !next_elbow_vel.is_finite() {
            return Err(ControlError::NonFiniteState);
        }
        let proposed_angles = next.angles;
        proof {
            self.arm.lemma_with_angles(proposed_angles);
        }
        if self.arm.set_angles(proposed_angles).is_ok() {
            self.velocity.shoulder_angular_velocity = next_shoulder_vel;
            self.velocity.elbow_angular_velocity = next_elbow_vel;
        }
        Ok(())
    }
}

} // verus!
