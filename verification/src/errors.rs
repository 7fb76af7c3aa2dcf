use vstd::prelude::*;

verus! {

/// Failures of geometry, joint limits, reachability and inverse kinematics.
#[allow(non_camel_case_types)]
#[derive(Debug, Clone, Copy, PartialEq, Eq, Structural)]
pub enum GeometryError {
    MAX_ANGLE_EXCEEDED,
    MIN_ANGLE_NOT_MET,
    MIN_ANGLE_NOT_POSSIBLE,
    NOT_FINITE_ANGLE,
    SHOULDER_ANGLE_OUT_OF_BOUNDS,
    ELBOW_ANGLE_OUT_OF_BOUNDS,
    ARM_LENGTH_NON_FINITE,
    ARM_LENGTH_OUT_OF_BOUNDS,
    CURRENT_ANGLES_OUT_OF_BOUNDS,
    POINT_OUT_OF_REACH,
    POINT_NOT_FINITE,
    POINT_AT_BASE,
    NO_VIABLE_SOLUTION,
}

/// Failures of the controller's parameters and of the state it is fed.
#[derive(Debug, Clone, Copy, PartialEq, Eq, Structural)]
pub enum ControlError {
    NonFiniteParameter,
    NegativeGain,
    NonPositiveAccelerationLimit,
    NonFiniteState,
}

/// Failures of a closed-loop motion: planning, control, or running out of
/// steps.
#[derive(Debug, Clone, Copy, PartialEq, Eq, Structural)]
pub enum MotionError {
    Geometry(GeometryError),
    Control(ControlError),
    Timeout,
}

} // verus!
