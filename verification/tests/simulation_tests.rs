use robot_control::control::JointVelocities;
use robot_control::errors::ControlError;
use robot_control::robot::{JointAngles, JointLimits, RequestedLimits, TwoLinkArm};
use robot_control::scalar::Scalar;
use robot_control::simulation::{Integration, SimulatedArm};

fn s(x: f64) -> Scalar {
    Scalar::from_bits(x.to_bits())
}

fn f(v: Scalar) -> f64 {
    f64::from_bits(v.to_bits())
}

fn limits() -> JointLimits {
    let deg = RequestedLimits {
        shoulder_min_deg: s(-90.0),
        shoulder_max_deg: s(90.0),
        elbow_min_deg: s(0.0),
        elbow_max_deg: s(150.0),
    };
    let rad = RequestedLimits {
        shoulder_min_deg: s((-90.0f64).to_radians()),
        shoulder_max_deg: s(90.0f64.to_radians()),
        elbow_min_deg: s(0.0),
        elbow_max_deg: s(150.0f64.to_radians()),
    };
    JointLimits::from_requested(deg, rad).unwrap()
}

fn sim() -> SimulatedArm {
    let arm = TwoLinkArm::new(
        s(1.0),
        s(1.0),
        limits(),
        JointAngles { shoulder_rad: s(0.0), elbow_rad: s(0.5) },
    )
    .unwrap();
    SimulatedArm::new(arm)
}

/// One semi-implicit Euler update, as the application computes it.
fn integrate(sim: &SimulatedArm, acc: (f64, f64), dt: f64) -> Integration {
    let vs = f(sim.velocity.shoulder_angular_velocity) + acc.0 * dt;
    let ve = f(sim.velocity.elbow_angular_velocity) + acc.1 * dt;
    Integration {
        velocity: JointVelocities { shoulder_angular_velocity: s(vs), elbow_angular_velocity: s(ve) },
        angles: JointAngles {
            shoulder_rad: s(f(sim.arm.current_angles.shoulder_rad) + vs * dt),
            elbow_rad: s(f(sim.arm.current_angles.elbow_rad) + ve * dt),
        },
    }
}

#[test]
fn new_starts_at_rest() {
    let sim = sim();
    assert_eq!(sim.velocity.shoulder_angular_velocity.to_bits(), 0);
    assert_eq!(sim.velocity.elbow_angular_velocity.to_bits(), 0);
    assert_eq!(f(sim.arm.current_angles.elbow_rad), 0.5);
}

#[test]
fn step_integrates_velocity_then_angle() {
    let mut sim = sim();
    let next = integrate(&sim, (10.0, -10.0), 0.01);
    assert_eq!(sim.step(s(0.01), next), Ok(()));
    assert!((f(sim.velocity.shoulder_angular_velocity) - 0.1).abs() < 1e-12);
    assert!((f(sim.velocity.elbow_angular_velocity) + 0.1).abs() < 1e-12);
    assert!((f(sim.arm.current_angles.shoulder_rad) - 0.001).abs() < 1e-12);
    assert!((f(sim.arm.current_angles.elbow_rad) - 0.499).abs() < 1e-12);
}

#[test]
fn step_refuses_bad_timesteps_and_states() {
    let mut sim = sim();
    let next = integrate(&sim, (1.0, 1.0), 0.0);
    assert_eq!(sim.step(s(0.0), next), Err(ControlError::NonFiniteParameter));
    assert_eq!(sim.step(s(-0.01), next), Err(ControlError::NonFiniteParameter));
    assert_eq!(sim.step(s(f64::NAN), next), Err(ControlError::NonFiniteParameter));
    let next = integrate(&sim, (f64::INFINITY, 1.0), 0.01);
    assert_eq!(sim.step(s(0.01), next), Err(ControlError::NonFiniteState));
    assert_eq!(sim.velocity.shoulder_angular_velocity.to_bits(), 0);
    assert_eq!(f(sim.arm.current_angles.elbow_rad), 0.5);
}

#[test]
fn step_leaves_state_intact_when_angles_are_rejected() {
    let mut sim = sim();
    // A large negative elbow acceleration drives the elbow below its
    // minimum of zero within one step.
    let next = integrate(&sim, (0.0, -10000.0), 0.01);
    assert_eq!(sim.step(s(0.01), next), Ok(()));
    assert_eq!(sim.velocity.elbow_angular_velocity.to_bits(), 0);
    assert_eq!(f(sim.arm.current_angles.elbow_rad), 0.5);
    assert_eq!(f(sim.arm.current_angles.shoulder_rad), 0.0);
}
