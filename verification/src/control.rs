use vstd::prelude::*;

use crate::errors::ControlError;
use crate::robot::JointAngles;
use crate::scalar::Scalar;

verus! {

/// Angular velocities of both joints, in radians per second.
#[derive(Clone, Copy, Debug)]
pub struct JointVelocities {
    pub shoulder_angular_velocity: Scalar,
    pub elbow_angular_velocity: Scalar,
}

/// Angular accelerations of both joints, in radians per second squared.
#[derive(Clone, Copy, Debug)]
pub struct JointAccelerations {
    pub shoulder_angular_acceleration: Scalar,
    pub elbow_angular_acceleration: Scalar,
}

/// The value `v` saturated to `[-limit, limit]`, as `f64::clamp` does.
pub open spec fn saturated(v: Scalar, limit: Scalar) -> Scalar {
    v.clamped(limit.negated(), limit)
}

/// `v` is NaN or lies within `[-limit, limit]`.
pub open spec fn within_limit(v: Scalar, limit: Scalar) -> bool {
    v.nan() || (limit.negated().at_most(v) && v.at_most(limit))
}

/// The first rule that a set of controller parameters breaks, if any:
/// every parameter finite, then every gain non-negative, then both
/// acceleration limits positive.
pub open spec fn parameter_violation(
    shoulder_proportional_gain: Scalar,
    shoulder_derivative_gain: Scalar,
    elbow_proportional_gain: Scalar,
    elbow_derivative_gain: Scalar,
    shoulder_maximum_acceleration: Scalar,
    elbow_maximum_acceleration: Scalar,
) -> Option<ControlError> {
    let zero = Scalar { bits: 0 };
    if !(shoulder_proportional_gain.finite() && shoulder_derivative_gain.finite()
        && elbow_proportional_gain.finite() && elbow_derivative_gain.finite()
        && shoulder_maximum_acceleration.finite() && elbow_maximum_acceleration.finite()) {
        Some(ControlError::NonFiniteParameter)
    } else if !(shoulder_proportional_gain.at_least(zero) && shoulder_derivative_gain.at_least(zero)
        && elbow_proportional_gain.at_least(zero) && elbow_derivative_gain.at_least(zero)) {
        Some(ControlError::NegativeGain)
    } else if !(shoulder_maximum_acceleration.greater_than(zero)
        && elbow_maximum_acceleration.greater_than(zero)) {
        Some(ControlError::NonPositiveAccelerationLimit)
    } else {
        None
    }
}

/// The parameter rules, joint by joint: a parameter set is accepted
/// exactly when every parameter is finite, every gain is at least zero and
/// each acceleration limit, on its own, is above zero; each error names a
/// rule that is broken, in that order.
pub proof fn lemma_parameter_rules(
    shoulder_proportional_gain: Scalar,
    shoulder_derivative_gain: Scalar,
    elbow_proportional_gain: Scalar,
    elbow_derivative_gain: Scalar,
    shoulder_maximum_acceleration: Scalar,
    elbow_maximum_acceleration: Scalar,
)
    ensures
        ({
            let v = parameter_violation(
                shoulder_proportional_gain,
                shoulder_derivative_gain,
                elbow_proportional_gain,
                elbow_derivative_gain,
                shoulder_maximum_acceleration,
                elbow_maximum_acceleration,
            );
            let zero = Scalar { bits: 0 };
            let all_finite = shoulder_proportional_gain.finite()
                && shoulder_derivative_gain.finite() && elbow_proportional_gain.finite()
                && elbow_derivative_gain.finite() && shoulder_maximum_acceleration.finite()
                && elbow_maximum_acceleration.finite();
            let gains_non_negative = zero.at_most(shoulder_proportional_gain) && zero.at_most(
                shoulder_derivative_gain,
            ) && zero.at_most(elbow_proportional_gain) && zero.at_most(elbow_derivative_gain);
            &&& v is None <==> all_finite && gains_non_negative && zero.less_than(
                shoulder_maximum_acceleration,
            ) && zero.less_than(elbow_maximum_acceleration)
            &&& v == Some(ControlError::NonFiniteParameter) <==> !all_finite
            &&& v == Some(ControlError::NegativeGain) <==> all_finite && !gains_non_negative
            &&& v == Some(ControlError::NonPositiveAccelerationLimit) <==> all_finite
                && gains_non_negative && (shoulder_maximum_acceleration.at_most(zero)
                || elbow_maximum_acceleration.at_most(zero))
            &&& v is Some ==> v == Some(ControlError::NonFiniteParameter) || v == Some(
                ControlError::NegativeGain,
            ) || v == Some(ControlError::NonPositiveAccelerationLimit)
        }),
{
}

/// A proportional-derivative controller for each joint, with a saturation
/// of the commanded acceleration.  It only computes commands; it never
/// changes the arm.
pub struct PDController {
    shoulder_proportional_gain: Scalar,
    shoulder_derivative_gain: Scalar,
    elbow_proportional_gain: Scalar,
    elbow_derivative_gain: Scalar,
    elbow_maximum_acceleration: Scalar,
    shoulder_maximum_acceleration: Scalar,
}

impl PDController {
    /// Every controller holds valid parameters.
    #[verifier::type_invariant]
    spec fn inv(self) -> bool {
        parameter_violation(
            self.shoulder_proportional_gain,
            self.shoulder_derivative_gain,
            self.elbow_proportional_gain,
            self.elbow_derivative_gain,
            self.shoulder_maximum_acceleration,
            self.elbow_maximum_acceleration,
        ) is None
    }

    /// Proportional gain of the shoulder.
    pub closed spec fn shoulder_kp(self) -> Scalar {
        self.shoulder_proportional_gain
    }

    /// Derivative gain of the shoulder.
    pub closed spec fn shoulder_kd(self) -> Scalar {
        self.shoulder_derivative_gain
    }

    /// Proportional gain of the elbow.
    pub closed spec fn elbow_kp(self) -> Scalar {
        self.elbow_proportional_gain
    }

    /// Derivative gain of the elbow.
    pub closed spec fn elbow_kd(self) -> Scalar {
        self.elbow_derivative_gain
    }

    /// Acceleration limit of the shoulder.
    pub closed spec fn shoulder_limit(self) -> Scalar {
        self.shoulder_maximum_acceleration
    }

    /// Acceleration limit of the elbow.
    pub closed spec fn elbow_limit(self) -> Scalar {
        self.elbow_maximum_acceleration
    }

    fn validate(
        shoulder_proportional_gain: Scalar,
        shoulder_derivative_gain: Scalar,
        elbow_proportional_gain: Scalar,
        elbow_derivative_gain: Scalar,
        shoulder_maximum_acceleration: Scalar,
        elbow_maximum_acceleration: Scalar,
    ) -> (r: Result<(), ControlError>)
        ensures
            match r {
                Ok(()) => parameter_violation(
                    shoulder_proportional_gain,
                    shoulder_derivative_gain,
                    elbow_proportional_gain,
                    elbow_derivative_gain,
                    shoulder_maximum_acceleration,
                    elbow_maximum_acceleration,
                ) is None,
                Err(e) => parameter_violation(
                    shoulder_proportional_gain,
                    shoulder_derivative_gain,
                    elbow_proportional_gain,
                    elbow_derivative_gain,
                    shoulder_maximum_acceleration,
                    elbow_maximum_acceleration,
                ) == Some(e),
            },
    {
        let all_finite = shoulder_proportional_gain.is_finite()
            && shoulder_derivative_gain.is_finite() && elbow_proportional_gain.is_finite()
            && elbow_derivative_gain.is_finite() && shoulder_maximum_acceleration.is_finite()
            && elbow_maximum_acceleration.is_finite();
        if !all_finite {
            return Err(ControlError::NonFiniteParameter);
        }
        let zero = Scalar::zero();
        let gains_non_negative = shoulder_proportional_gain.is_at_least(zero)
            && shoulder_derivative_gain.is_at_least(zero) && elbow_proportional_gain.is_at_least(
            zero,
        ) && elbow_derivative_gain.is_at_least(zero);
        if !gains_non_negative {
            return Err(ControlError::NegativeGain);
        }
        let acceleration_limits_positive = shoulder_maximum_acceleration.is_greater_than(zero)
            && elbow_maximum_acceleration.is_greater_than(zero);
        if !acceleration_limits_positive {
            return Err(ControlError::NonPositiveAccelerationLimit);
        }
        Ok(())
    }

    /// Builds a controller from finite, non-negative gains and finite,
    /// positive acceleration limits.
    pub fn new(
        shoulder_deriv_gain: Scalar,
        shoulder_max_acceleration: Scalar,
        shoulder_prop_gain: Scalar,
        elbow_deriv_gain: Scalar,
        elbow_max_acceleration: Scalar,
        elbow_prop_gain: Scalar,
    ) -> (r: Result<Self, ControlError>)
        ensures
            match r {
                Ok(c) => {
                    &&& parameter_violation(
                        shoulder_prop_gain,
                        shoulder_deriv_gain,
                        elbow_prop_gain,
                        elbow_deriv_gain,
                        shoulder_max_acceleration,
                        elbow_max_acceleration,
                    ) is None
                    &&& c.shoulder_kp() == shoulder_prop_gain
                    &&& c.shoulder_kd() == shoulder_deriv_gain
                    &&& c.elbow_kp() == elbow_prop_gain
                    &&& c.elbow_kd() == elbow_deriv_gain
                    &&& c.shoulder_limit() == shoulder_max_acceleration
                    &&& c.elbow_limit() == elbow_max_acceleration
                },
                Err(e) => parameter_violation(
                    shoulder_prop_gain,
                    shoulder_deriv_gain,
                    elbow_prop_gain,
                    elbow_deriv_gain,
                    shoulder_max_acceleration,
                    elbow_max_acceleration,
                ) == Some(e),
            },
            r is Ok <==> shoulder_prop_gain.finite() && shoulder_deriv_gain.finite()
                && elbow_prop_gain.finite() && elbow_deriv_gain.finite()
                && shoulder_max_acceleration.finite() && elbow_max_acceleration.finite() && (
            Scalar { bits: 0 }).at_most(shoulder_prop_gain) && (Scalar { bits: 0 }).at_most(
                shoulder_deriv_gain,
            ) && (Scalar { bits: 0 }).at_most(elbow_prop_gain) && (Scalar { bits: 0 }).at_most(
                elbow_deriv_gain,
            ) && (Scalar { bits: 0 }).less_than(shoulder_max_acceleration) && (Scalar {
                bits: 0,
            }).less_than(elbow_max_acceleration),
    {
        proof {
            lemma_parameter_rules(
                shoulder_prop_gain,
                shoulder_deriv_gain,
                elbow_prop_gain,
                elbow_deriv_gain,
                shoulder_max_acceleration,
                elbow_max_acceleration,
            );
        }
        Self::validate(
            shoulder_prop_gain,
            shoulder_deriv_gain,
            elbow_prop_gain,
            elbow_deriv_gain,
            shoulder_max_acceleration,
            elbow_max_acceleration,
        )?;
        Ok(Self {
            shoulder_derivative_gain: shoulder_deriv_gain,
            shoulder_maximum_acceleration: shoulder_max_acceleration,
            shoulder_proportional_gain: shoulder_prop_gain,
            elbow_derivative_gain: elbow_deriv_gain,
            elbow_maximum_acceleration: elbow_max_acceleration,
            elbow_proportional_gain: elbow_prop_gain,
        })
    }

    /// Saturates an unsaturated command to the acceleration limits.
    fn saturate(&self, unsaturated: JointAccelerations) -> (r: JointAccelerations)
        ensures
            r.shoulder_angular_acceleration == saturated(
                unsaturated.shoulder_angular_acceleration,
                self.shoulder_limit(),
            ),
            r.elbow_angular_acceleration == saturated(
                unsaturated.elbow_angular_acceleration,
                self.elbow_limit(),
            ),
            within_limit(r.shoulder_angular_acceleration, self.shoulder_limit()),
            within_limit(r.elbow_angular_acceleration, self.elbow_limit()),
    {
        proof {
            use_type_invariant(self);
        }
        let shoulder_limit = self.shoulder_maximum_acceleration;
        let elbow_limit = self.elbow_maximum_acceleration;
        let shoulder_acceleration = unsaturated.shoulder_angular_acceleration.clamp(
            shoulder_limit.neg(),
            shoulder_limit,
        );
        let elbow_acceleration = unsaturated.elbow_angular_acceleration.clamp(
            elbow_limit.neg(),
            elbow_limit,
        );
        JointAccelerations {
            shoulder_angular_acceleration: shoulder_acceleration,
            elbow_angular_acceleration: elbow_acceleration,
        }
    }

    /// The acceleration command towards `target`: refused when any angle
    /// or velocity is not finite, otherwise `unsaturated` saturated to the
    /// acceleration limits.  `unsaturated` is, for each joint,
    /// `kp * (target - current) - kd * velocity` computed from these inputs
    /// and this controller's gains.
    pub fn compute(
        &self,
        target: JointAngles,
        current_angle: JointAngles,
        current_vel: JointVelocities,
        unsaturated: JointAccelerations,
    ) -> (r: Result<JointAccelerations, ControlError>)
        ensures
            r is Err <==> !(current_angle.elbow_rad.finite() && current_angle.shoulder_rad.finite()
                && target.elbow_rad.finite() && target.shoulder_rad.finite()
                && current_vel.elbow_angular_velocity.finite()
                && current_vel.shoulder_angular_velocity.finite()),
            r is Err ==> r == Err::<JointAccelerations, ControlError>(
                ControlError::NonFiniteState,
            ),
            r matches Ok(a) ==> {
                &&& a.shoulder_angular_acceleration == saturated(
                    unsaturated.shoulder_angular_acceleration,
                    self.shoulder_limit(),
                )
                &&& a.elbow_angular_acceleration == saturated(
                    unsaturated.elbow_angular_acceleration,
                    self.elbow_limit(),
                )
                &&& within_limit(a.shoulder_angular_acceleration, self.shoulder_limit())
                &&& within_limit(a.elbow_angular_acceleration, self.elbow_limit())
            },
    {
        let all_finite = current_angle.elbow_rad.is_finite()
            && current_angle.shoulder_rad.is_finite() && target.elbow_rad.is_finite()
            && target.shoulder_rad.is_finite() && current_vel.elbow_angular_velocity.is_finite()
            && current_vel.shoulder_angular_velocity.is_finite();
        if !all_finite {
            return Err(ControlError::NonFiniteState);
        }
        Ok(self.saturate(unsaturated))
    }

    /// The braking command: refused when a velocity is not finite,
    /// otherwise `unsaturated` saturated to the acceleration limits.
    /// `unsaturated` is, for each joint, `-kd * velocity` computed from
    /// these velocities and this controller's gains.
    pub fn brake(&self, current_vel: JointVelocities, unsaturated: JointAccelerations) -> (r:
        Result<JointAccelerations, ControlError>)
        ensures
            r is Err <==> !(current_vel.shoulder_angular_velocity.finite()
                && current_vel.elbow_angular_velocity.finite()),
            r is Err ==> r == Err::<JointAccelerations, ControlError>(
                ControlError::NonFiniteState,
            ),
            r matches Ok(a) ==> {
                &&& a.shoulder_angular_acceleration == saturated(
                    unsaturated.shoulder_angular_acceleration,
                    self.shoulder_limit(),
                )
                &&& a.elbow_angular_acceleration == saturated(
                    unsaturated.elbow_angular_acceleration,
                    self.elbow_limit(),
                )
                &&& within_limit(a.shoulder_angular_acceleration, self.shoulder_limit())
                &&& within_limit(a.elbow_angular_acceleration, self.elbow_limit())
            },
    {
        let all_finite = current_vel.shoulder_angular_velocity.is_finite()
            && current_vel.elbow_angular_velocity.is_finite();
        if !all_finite {
            return Err(ControlError::NonFiniteState);
        }
        Ok(self.saturate(unsaturated))
    }

    /// Proportional gain of the shoulder.
    pub fn shoulder_proportional_gain(&self) -> (r: Scalar)
        ensures
            r == self.shoulder_kp(),
            r.finite(),
            (Scalar { bits: 0 }).at_most(r),
    {
        proof {
            use_type_invariant(self);
        }
        self.shoulder_proportional_gain
    }

    /// Derivative gain of the shoulder.
    pub fn shoulder_derivative_gain(&self) -> (r: Scalar)
        ensures
            r == self.shoulder_kd(),
            r.finite(),
            (Scalar { bits: 0 }).at_most(r),
    {
        proof {
            use_type_invariant(self);
        }
        self.shoulder_derivative_gain
    }

    /// Proportional gain of the elbow.
    pub fn elbow_proportional_gain(&self) -> (r: Scalar)
        ensures
            r == self.elbow_kp(),
            r.finite(),
            (Scalar { bits: 0 }).at_most(r),
    {
        proof {
            use_type_invariant(self);
        }
        self.elbow_proportional_gain
    }

    /// Derivative gain of the elbow.
    pub fn elbow_derivative_gain(&self) -> (r: Scalar)
        ensures
            r == self.elbow_kd(),
            r.finite(),
            (Scalar { bits: 0 }).at_most(r),
    {
        proof {
            use_type_invariant(self);
        }
        self.elbow_derivative_gain
    }

    /// Acceleration limit of the shoulder.
    pub fn shoulder_maximum_acceleration(&self) -> (r: Scalar)
        ensures
            r == self.shoulder_limit(),
            r.finite(),
            (Scalar { bits: 0 }).less_than(r),
    {
        proof {
            use_type_invariant(self);
        }
        self.shoulder_maximum_acceleration
    }

    /// Acceleration limit of the elbow.
    pub fn elbow_maximum_acceleration(&self) -> (r: Scalar)
        ensures
            r == self.elbow_limit(),
            r.finite(),
            (Scalar { bits: 0 }).less_than(r),
    {
        proof {
            use_type_invariant(self);
        }
        self.elbow_maximum_acceleration
    }
}

/// `limit` is a usable acceleration limit: finite and positive.
pub open spec fn limit_valid(limit: Scalar) -> bool {
    limit.finite() && (Scalar { bits: 0 }).less_than(limit)
}

/// Saturation is odd: saturating the negated value gives the negated
/// saturated value.  With the sign flip of the unsaturated PD command, this
/// is why swapping target and current angles and reversing the velocity
/// reverses the command.
pub proof fn lemma_saturation_odd(v: Scalar, limit: Scalar)
    requires
        !v.nan(),
        limit_valid(limit),
    ensures
        saturated(v.negated(), limit) == saturated(v, limit).negated(),
{
    assert(limit.negated().negated() == limit);
    assert(v.negated().negated() == v);
}

/// Saturation is monotone: a larger value never saturates to a smaller
/// one.  With the monotonicity of the unsaturated PD command, the command
/// rises with the target and falls with the velocity, joint by joint.
pub proof fn lemma_saturation_monotone(v1: Scalar, v2: Scalar, limit: Scalar)
    requires
        v1.at_most(v2),
        limit_valid(limit),
    ensures
        saturated(v1, limit).at_most(saturated(v2, limit)),
{
}

/// Saturation respects IEEE equality: equal values (such as `+0.0` and
/// `-0.0`) saturate to equal values.
pub proof fn lemma_saturation_same_value(v1: Scalar, v2: Scalar, limit: Scalar)
    requires
        v1.same_value(v2),
    ensures
        saturated(v1, limit).same_value(saturated(v2, limit)),
{
}

/// The braking command is the PD command for zero position error.  By
/// their contracts, `brake(vel, u)` succeeds exactly when the velocities
/// are finite, and so does `compute(q, q, vel, u2)` when `q` is finite;
/// both then saturate what they are handed.  When `u` and `u2` are equal
/// joint by joint (as `-kd * v` and `kp * 0 - kd * v` are), the two
/// commands are equal too.
pub proof fn lemma_brake_is_command_at_zero_error(
    controller: PDController,
    u: JointAccelerations,
    u2: JointAccelerations,
    braked: JointAccelerations,
    commanded: JointAccelerations,
)
    requires
        u.shoulder_angular_acceleration.same_value(u2.shoulder_angular_acceleration),
        u.elbow_angular_acceleration.same_value(u2.elbow_angular_acceleration),
        braked.shoulder_angular_acceleration == saturated(
            u.shoulder_angular_acceleration,
            controller.shoulder_limit(),
        ),
        braked.elbow_angular_acceleration == saturated(
            u.elbow_angular_acceleration,
            controller.elbow_limit(),
        ),
        commanded.shoulder_angular_acceleration == saturated(
            u2.shoulder_angular_acceleration,
            controller.shoulder_limit(),
        ),
        commanded.elbow_angular_acceleration == saturated(
            u2.elbow_angular_acceleration,
            controller.elbow_limit(),
        ),
    ensures
        braked.shoulder_angular_acceleration.same_value(commanded.shoulder_angular_acceleration),
        braked.elbow_angular_acceleration.same_value(commanded.elbow_angular_acceleration),
{
    lemma_saturation_same_value(
        u.shoulder_angular_acceleration,
        u2.shoulder_angular_acceleration,
        controller.shoulder_limit(),
    );
    lemma_saturation_same_value(
        u.elbow_angular_acceleration,
        u2.elbow_angular_acceleration,
        controller.elbow_limit(),
    );
}

} // verus!
