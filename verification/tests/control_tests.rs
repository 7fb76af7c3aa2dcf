use robot_control::control::{JointAccelerations, JointVelocities, PDController};
use robot_control::errors::ControlError;
use robot_control::robot::JointAngles;
use robot_control::scalar::Scalar;

fn s(x: f64) -> Scalar {
    Scalar::from_bits(x.to_bits())
}

fn f(v: Scalar) -> f64 {
    f64::from_bits(v.to_bits())
}

fn controller() -> PDController {
    PDController::new(s(8.0), s(10.0), s(20.0), s(8.0), s(10.0), s(20.0)).unwrap()
}

fn angles(shoulder: f64, elbow: f64) -> JointAngles {
    JointAngles { shoulder_rad: s(shoulder), elbow_rad: s(elbow) }
}

fn velocities(shoulder: f64, elbow: f64) -> JointVelocities {
    JointVelocities { shoulder_angular_velocity: s(shoulder), elbow_angular_velocity: s(elbow) }
}

fn accelerations(shoulder: f64, elbow: f64) -> JointAccelerations {
    JointAccelerations {
        shoulder_angular_acceleration: s(shoulder),
        elbow_angular_acceleration: s(elbow),
    }
}

/// The unsaturated PD command, as the application computes it.
fn pd(c: &PDController, target: JointAngles, current: JointAngles, v: JointVelocities) -> JointAccelerations {
    let sh = f(c.shoulder_proportional_gain()) * (f(target.shoulder_rad) - f(current.shoulder_rad))
        - f(c.shoulder_derivative_gain()) * f(v.shoulder_angular_velocity);
    let el = f(c.elbow_proportional_gain()) * (f(target.elbow_rad) - f(current.elbow_rad))
        - f(c.elbow_derivative_gain()) * f(v.elbow_angular_velocity);
    accelerations(sh, el)
}

#[test]
fn new_keeps_parameters_in_place() {
    let c = controller();
    assert_eq!(f(c.shoulder_derivative_gain()), 8.0);
    assert_eq!(f(c.shoulder_maximum_acceleration()), 10.0);
    assert_eq!(f(c.shoulder_proportional_gain()), 20.0);
    assert_eq!(f(c.elbow_derivative_gain()), 8.0);
    assert_eq!(f(c.elbow_maximum_acceleration()), 10.0);
    assert_eq!(f(c.elbow_proportional_gain()), 20.0);
}

#[test]
fn new_refuses_each_rule() {
    assert_eq!(
        PDController::new(s(f64::NAN), s(10.0), s(20.0), s(8.0), s(10.0), s(20.0)).err(),
        Some(ControlError::NonFiniteParameter)
    );
    assert_eq!(
        PDController::new(s(8.0), s(f64::INFINITY), s(20.0), s(8.0), s(10.0), s(20.0)).err(),
        Some(ControlError::NonFiniteParameter)
    );
    assert_eq!(
        PDController::new(s(8.0), s(10.0), s(-1.0), s(8.0), s(10.0), s(20.0)).err(),
        Some(ControlError::NegativeGain)
    );
    assert_eq!(
        PDController::new(s(8.0), s(0.0), s(20.0), s(8.0), s(10.0), s(20.0)).err(),
        Some(ControlError::NonPositiveAccelerationLimit)
    );
    assert_eq!(
        PDController::new(s(8.0), s(10.0), s(20.0), s(8.0), s(-3.0), s(20.0)).err(),
        Some(ControlError::NonPositiveAccelerationLimit)
    );
    // A negative gain is reported before a non-positive limit.
    assert_eq!(
        PDController::new(s(-8.0), s(0.0), s(20.0), s(8.0), s(10.0), s(20.0)).err(),
        Some(ControlError::NegativeGain)
    );
    // Zero gains are allowed.
    assert!(PDController::new(s(0.0), s(1.0), s(-0.0), s(0.0), s(1.0), s(0.0)).is_ok());
}

#[test]
fn compute_saturates_the_command() {
    let c = controller();
    let target = angles(1.0, 0.0);
    let current = angles(0.0, 0.1);
    let v = velocities(0.0, 0.0);
    let a = c.compute(target, current, v, pd(&c, target, current, v)).unwrap();
    // 20 * 1 is clamped to 10; 20 * -0.1 = -2 stays.
    assert_eq!(f(a.shoulder_angular_acceleration), 10.0);
    assert!((f(a.elbow_angular_acceleration) + 2.0).abs() < 1e-12);

    let target = angles(-1.0, 0.0);
    let a = c.compute(target, current, v, pd(&c, target, current, v)).unwrap();
    assert_eq!(f(a.shoulder_angular_acceleration), -10.0);
}

#[test]
fn compute_refuses_non_finite_state() {
    let c = controller();
    let target = angles(1.0, 0.0);
    let current = angles(0.0, f64::NAN);
    let v = velocities(0.0, 0.0);
    assert_eq!(
        c.compute(target, current, v, pd(&c, target, current, v)).err(),
        Some(ControlError::NonFiniteState)
    );
    let current = angles(0.0, 0.0);
    let v = velocities(f64::INFINITY, 0.0);
    assert_eq!(
        c.compute(target, current, v, pd(&c, target, current, v)).err(),
        Some(ControlError::NonFiniteState)
    );
}

#[test]
fn compute_keeps_a_nan_command() {
    let c = controller();
    let a = c
        .compute(angles(0.0, 0.0), angles(0.0, 0.0), velocities(0.0, 0.0), accelerations(f64::NAN, 1.0))
        .unwrap();
    assert!(f(a.shoulder_angular_acceleration).is_nan());
    assert_eq!(f(a.elbow_angular_acceleration), 1.0);
}

#[test]
fn brake_opposes_the_velocity() {
    let c = controller();
    let v = velocities(0.5, -2.0);
    let raw = accelerations(
        -f(c.shoulder_derivative_gain()) * 0.5,
        -f(c.elbow_derivative_gain()) * -2.0,
    );
    let a = c.brake(v, raw).unwrap();
    assert_eq!(f(a.shoulder_angular_acceleration), -4.0);
    assert_eq!(f(a.elbow_angular_acceleration), 10.0);
    assert_eq!(
        c.brake(velocities(f64::NAN, 0.0), raw).err(),
        Some(ControlError::NonFiniteState)
    );
}

#[test]
fn swapping_target_and_current_reverses_the_command() {
    let c = controller();
    let target = angles(0.3, 0.1);
    let current = angles(0.0, 0.4);
    let v = velocities(0.2, -0.1);
    let vneg = velocities(-0.2, 0.1);
    let a = c.compute(target, current, v, pd(&c, target, current, v)).unwrap();
    let b = c.compute(current, target, vneg, pd(&c, current, target, vneg)).unwrap();
    assert_eq!(f(b.shoulder_angular_acceleration), -f(a.shoulder_angular_acceleration));
    assert_eq!(f(b.elbow_angular_acceleration), -f(a.elbow_angular_acceleration));
}

#[test]
fn the_command_rises_with_the_target_and_falls_with_the_velocity() {
    let c = controller();
    let current = angles(0.0, 0.0);
    let v = velocities(0.0, 0.0);
    let low = angles(0.1, 0.2);
    let high = angles(0.2, 0.2);
    let a1 = c.compute(low, current, v, pd(&c, low, current, v)).unwrap();
    let a2 = c.compute(high, current, v, pd(&c, high, current, v)).unwrap();
    assert!(f(a1.shoulder_angular_acceleration) <= f(a2.shoulder_angular_acceleration));
    assert_eq!(f(a1.elbow_angular_acceleration), f(a2.elbow_angular_acceleration));
    let fast = velocities(0.5, 0.0);
    let a3 = c.compute(low, current, fast, pd(&c, low, current, fast)).unwrap();
    assert!(f(a3.shoulder_angular_acceleration) <= f(a1.shoulder_angular_acceleration));
}

#[test]
fn brake_is_the_command_at_zero_error() {
    let c = controller();
    let q = angles(0.4, 1.1);
    let v = velocities(0.5, -2.0);
    let braking = accelerations(
        -f(c.shoulder_derivative_gain()) * 0.5,
        -f(c.elbow_derivative_gain()) * -2.0,
    );
    let b = c.brake(v, braking).unwrap();
    let a = c.compute(q, q, v, pd(&c, q, q, v)).unwrap();
    assert_eq!(f(b.shoulder_angular_acceleration), f(a.shoulder_angular_acceleration));
    assert_eq!(f(b.elbow_angular_acceleration), f(a.elbow_angular_acceleration));
}
