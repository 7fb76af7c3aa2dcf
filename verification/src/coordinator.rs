use vstd::prelude::*;

use crate::control::JointVelocities;
use crate::scalar::Scalar;

pub use crate::errors::MotionError;

verus! {

/// What the closed motion loop does next.
#[derive(Debug, Clone, Copy, PartialEq, Eq, Structural)]
pub enum MotionDecision {
    /// Both joints are settled: the motion succeeded.
    Settled,
    /// Compute a command and advance the simulation by one step.
    Advance,
    /// The step budget is spent: the motion failed with a timeout.
    TimedOut,
}

/// Both joints are settled: each angle error and each angular velocity is
/// smaller than its tolerance in absolute value.
pub open spec fn settled(
    shoulder_error: Scalar,
    elbow_error: Scalar,
    velocity: JointVelocities,
    angle_tolerance: Scalar,
    velocity_tolerance: Scalar,
) -> bool {
    &&& shoulder_error.absolute().less_than(angle_tolerance)
    &&& elbow_error.absolute().less_than(angle_tolerance)
    &&& velocity.shoulder_angular_velocity.absolute().less_than(velocity_tolerance)
    &&& velocity.elbow_angular_velocity.absolute().less_than(velocity_tolerance)
}

/// The arm is settled exactly when each angle error lies strictly between
/// minus and plus the angle tolerance and each angular velocity strictly
/// between minus and plus the velocity tolerance; an error or velocity at
/// least as large as its tolerance, of either sign, or a NaN, is never
/// settled.
pub proof fn lemma_settled_within_tolerances(
    shoulder_error: Scalar,
    elbow_error: Scalar,
    velocity: JointVelocities,
    angle_tolerance: Scalar,
    velocity_tolerance: Scalar,
)
    ensures
        settled(shoulder_error, elbow_error, velocity, angle_tolerance, velocity_tolerance) <==> {
            &&& angle_tolerance.negated().less_than(shoulder_error)
            &&& shoulder_error.less_than(angle_tolerance)
            &&& angle_tolerance.negated().less_than(elbow_error)
            &&& elbow_error.less_than(angle_tolerance)
            &&& velocity_tolerance.negated().less_than(velocity.shoulder_angular_velocity)
            &&& velocity.shoulder_angular_velocity.less_than(velocity_tolerance)
            &&& velocity_tolerance.negated().less_than(velocity.elbow_angular_velocity)
            &&& velocity.elbow_angular_velocity.less_than(velocity_tolerance)
        },
{
    shoulder_error.lemma_absolute_below(angle_tolerance);
    elbow_error.lemma_absolute_below(angle_tolerance);
    velocity.shoulder_angular_velocity.lemma_absolute_below(velocity_tolerance);
    velocity.elbow_angular_velocity.lemma_absolute_below(velocity_tolerance);
}

/// Whether both joints are settled, given the angle errors
/// `target - current` of both joints and their velocities.
pub fn is_settled(
    shoulder_error: Scalar,
    elbow_error: Scalar,
    velocity: JointVelocities,
    angle_tolerance: Scalar,
    velocity_tolerance: Scalar,
) -> (r: bool)
    ensures
        r == settled(shoulder_error, elbow_error, velocity, angle_tolerance, velocity_tolerance),
        r <==> angle_tolerance.negated().less_than(shoulder_error) && shoulder_error.less_than(
            angle_tolerance,
        ) && angle_tolerance.negated().less_than(elbow_error) && elbow_error.less_than(
            angle_tolerance,
        ) && velocity_tolerance.negated().less_than(velocity.shoulder_angular_velocity)
            && velocity.shoulder_angular_velocity.less_than(velocity_tolerance)
            && velocity_tolerance.negated().less_than(velocity.elbow_angular_velocity)
            && velocity.elbow_angular_velocity.less_than(velocity_tolerance),
{
    proof {
        lemma_settled_within_tolerances(
            shoulder_error,
            elbow_error,
            velocity,
            angle_tolerance,
            velocity_tolerance,
        );
    }
    let angles_settled = shoulder_error.abs().is_less_than(angle_tolerance)
        && elbow_error.abs().is_less_than(angle_tolerance);
    let velocities_settled = velocity.shoulder_angular_velocity.abs().is_less_than(
        velocity_tolerance,
    ) && velocity.elbow_angular_velocity.abs().is_less_than(velocity_tolerance);
    angles_settled && velocities_settled
}

/// The decisions of the closed motion loop towards a fixed target: before
/// each of at most `max_steps` steps it checks whether the arm has
/// settled, and once the budget is spent it gives up.
pub struct MotionSupervisor {
    steps_taken: usize,
    max_steps: usize,
}

impl MotionSupervisor {
    #[verifier::type_invariant]
    spec fn inv(self) -> bool {
        self.steps_taken <= self.max_steps
    }

    /// Steps advanced so far.
    pub closed spec fn steps(self) -> nat {
        self.steps_taken as nat
    }

    /// The step budget.
    pub closed spec fn budget(self) -> nat {
        self.max_steps as nat
    }

    /// A supervisor that has taken no step yet.
    pub fn new(max_steps: usize) -> (r: Self)
        ensures
            r.steps() == 0,
            r.budget() == max_steps,
    {
        MotionSupervisor { steps_taken: 0, max_steps }
    }

    /// The next decision, given whether the arm is settled now: a timeout
    /// once `max_steps` steps were taken (whatever the state), success when
    /// settled, and otherwise one more step.
    pub fn decide(&mut self, is_settled: bool) -> (r: MotionDecision)
        ensures
            final(self).budget() == old(self).budget(),
            old(self).steps() <= old(self).budget(),
            final(self).steps() <= final(self).budget(),
            old(self).steps() == old(self).budget() ==> r == MotionDecision::TimedOut,
            old(self).steps() < old(self).budget() && is_settled ==> r == MotionDecision::Settled,
            old(self).steps() < old(self).budget() && !is_settled ==> r == MotionDecision::Advance,
            r == MotionDecision::Advance ==> final(self).steps() == old(self).steps() + 1,
            r != MotionDecision::Advance ==> final(self).steps() == old(self).steps(),
    {
        proof {
            use_type_invariant(&*self);
        }
        if self.steps_taken == self.max_steps {
            return MotionDecision::TimedOut;
        }
        if is_settled {
            return MotionDecision::Settled;
        }
        self.steps_taken = self.steps_taken + 1;
        MotionDecision::Advance
    }

    /// Steps advanced so far.
    pub fn steps_taken(&self) -> (r: usize)
        ensures
            r == self.steps(),
    {
        self.steps_taken
    }
}

} // verus!
