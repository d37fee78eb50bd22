use evian::angle::Angle;
use evian::feedback::Feedforward;
use evian::loops::{
    ArmFeedforward, ArmFeedforwardSetpoint, BangBang, ElevatorFeedforward, ElevatorFeedforwardSetpoint,
    MotorFeedforward, MotorFeedforwardSetpoint, TakeBackHalf,
};
use evian::pid::{AngularPid, Pid};

#[test]
fn pid_proportional_exact() {
    let mut pid = Pid::new(1500, 0, 0, None, None);
    assert_eq!(pid.update(10, 110, 5), 150);
    assert_eq!(pid.prev_error, 100);
}

#[test]
fn pid_integral_and_derivative_exact() {
    let mut pid = Pid::new(0, 1000, 0, None, None);
    assert_eq!(pid.update(0, 10, 5), 50);
    assert_eq!(pid.integral, 50);
    assert_eq!(pid.update(0, 10, 5), 100);
    let mut d = Pid::new(0, 0, 1000, None, None);
    assert_eq!(d.update(0, 100, 10), 10);
    assert_eq!(d.update(0, 40, 10), -6);
}

#[test]
fn pid_anti_windup_freezes_integral() {
    let mut pid = Pid::new(0, 1000, 0, Some(50), None);
    pid.update(0, 20, 5);
    assert_eq!(pid.integral, 100);
    for _ in 0..10 {
        pid.update(0, 500, 5);
        assert_eq!(pid.integral, 100);
    }
    pid.update(0, -50, 5);
    assert_eq!(pid.integral, -150);
}

#[test]
fn pid_output_clamped() {
    let mut pid = Pid::new(1_000_000, 0, 0, None, Some(120));
    assert_eq!(pid.update(0, 1_000_000, 5), 120);
    assert_eq!(pid.update(0, -1_000_000, 5), -120);
    assert_eq!(pid.update(0, 0, 5), 0);
    pid.set_output_limit(None);
    assert_eq!(pid.update(0, 1000, 5), 1_000_000);
}

#[test]
fn angular_pid_wraps_across_seam() {
    let mut pid = AngularPid::new(1000, 0, 0, None, None);
    let r = pid.update(Angle::from_degrees(10), Angle::from_degrees(350), 5);
    assert_eq!(r, -20_000);
    assert_eq!(pid.inner.prev_error, -20_000);
    let r = pid.update(Angle::from_degrees(350), Angle::from_degrees(10), 5);
    assert_eq!(r, 20_000);
}

#[test]
fn wrapped_half_examples() {
    assert_eq!(Angle::from_degrees(340).wrapped_half().as_millidegrees(), -20_000);
    assert_eq!(Angle::from_degrees(180).wrapped_half().as_millidegrees(), 180_000);
    assert_eq!(Angle::from_degrees(-180).wrapped_half().as_millidegrees(), 180_000);
    assert_eq!(Angle::from_degrees(-190).wrapped_half().as_millidegrees(), 170_000);
    assert_eq!(Angle::from_turns(3).wrapped_half().as_millidegrees(), 0);
    assert_eq!(Angle::from_gradians(100).as_millidegrees(), 90_000);
}

#[test]
fn take_back_half_halves_at_crossing() {
    let mut tbh = TakeBackHalf::new(1000);
    assert_eq!(tbh.update(0, 100, 5), 100);
    assert_eq!(tbh.update(0, 50, 5), 150);
    // crossing: accumulated 150 - 30 = 120, halved with tbh 0
    assert_eq!(tbh.update(0, -30, 5), 60);
    assert_eq!(tbh.tbh, 60);
    assert_eq!(tbh.update(0, -10, 5), 50);
    // crossing back: accumulated 50 + 20 = 70, halved with tbh 60
    assert_eq!(tbh.update(0, 20, 5), 65);
    assert_eq!(tbh.tbh, 65);
}

#[test]
fn bang_bang_deadband() {
    let mut bb = BangBang::new(12, 5);
    assert_eq!(bb.update(0, 6, 5), 12);
    assert_eq!(bb.update(0, -6, 5), -12);
    assert_eq!(bb.update(0, 5, 5), 0);
    assert_eq!(bb.update(0, -5, 5), 0);
}

#[test]
fn feedforward_models_exact() {
    let mut motor = MotorFeedforward { ks: 500, kv: 2000, ka: 1000 };
    assert_eq!(motor.update(MotorFeedforwardSetpoint { velocity: 10, acceleration: 3 }, 5), 23);
    assert_eq!(motor.update(MotorFeedforwardSetpoint { velocity: 0, acceleration: 0 }, 5), 0);
    assert_eq!(motor.update(MotorFeedforwardSetpoint { velocity: -10, acceleration: 0 }, 5), -20);
    let mut arm = ArmFeedforward { kg: 4000, kv: 1000, ka: 0 };
    assert_eq!(arm.update(ArmFeedforwardSetpoint { cos_angle: 500, velocity: 3, acceleration: 0 }, 5), 5);
    let mut elevator = ElevatorFeedforward { kg: 7000, kv: 1000, ka: 2000 };
    assert_eq!(elevator.update(ElevatorFeedforwardSetpoint { velocity: 1, acceleration: 1 }, 5), 10);
}

#[test]
fn feedforward_trait_dispatches() {
    let mut motor = MotorFeedforward { ks: 1000, kv: 1000, ka: 0 };
    assert_eq!(Feedforward::update(&mut motor, MotorFeedforwardSetpoint { velocity: -4, acceleration: 9 }, 5), -5);
    let mut elevator = ElevatorFeedforward { kg: 2500, kv: 0, ka: 0 };
    assert_eq!(Feedforward::update(&mut elevator, ElevatorFeedforwardSetpoint { velocity: 0, acceleration: 0 }, 5), 2);
    let mut arm = ArmFeedforward { kg: 3000, kv: 0, ka: 0 };
    assert_eq!(Feedforward::update(&mut arm, ArmFeedforwardSetpoint { cos_angle: -1000, velocity: 0, acceleration: 0 }, 5), -3);
}

#[test]
fn pid_derivative_keeps_small_changes() {
    let mut pid = Pid::new(0, 0, 5000, None, None);
    assert_eq!(pid.update(0, 3, 5), 3);
}
