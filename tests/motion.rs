use evian::geometry::Vec2;
use evian::move_to_point::{MoveToPointFuture, SeekAction, TrackingSample, HEADING_SCALE};
use evian::feedback::Feedback;
use evian::loops::{BangBang, TakeBackHalf};
use evian::pid::Pid;
use evian::tolerances::Tolerances;

#[test]
fn tolerances_instantaneous_without_duration() {
    let mut t = Tolerances::new().error(10).velocity(3);
    assert!(t.check(10, 3, 0));
    assert!(!t.check(11, 0, 1));
    assert!(!t.check(0, -4, 2));
    assert!(Tolerances::new().check(1_000_000, -1_000_000, 3));
}

#[test]
fn tolerances_continuity_resets_on_violation() {
    let mut t = Tolerances::new().error(10).duration(15);
    for now in 0..15 {
        assert!(!t.check(5, 0, now));
    }
    assert!(!t.check(50, 0, 14));
    assert_eq!(t.satisfied_since, None);
    for now in 15..30 {
        assert!(!t.check(5, 0, now));
    }
    assert!(t.check(5, 0, 30));
    assert_eq!(t.satisfied_since, Some(15));
}

fn sample(x: f64, y: f64, heading: f64, velocity: f64, now: u64) -> TrackingSample {
    let scale = HEADING_SCALE as f64;
    TrackingSample {
        position: Vec2::new(x.round() as i64, y.round() as i64),
        heading_cos: (heading.cos() * scale).round() as i64,
        heading_sin: (heading.sin() * scale).round() as i64,
        linear_velocity: velocity.round() as i64,
        now,
    }
}

/// Runs the pursuit law against a noiseless unicycle model and returns the
/// distances seen on each tick and the number of stop commands issued.
fn simulate(target: Vec2, heading: f64, ticks: usize) -> (Vec<f64>, usize, bool) {
    let linear = Pid::new(200, 0, 0, None, Some(40));
    let lateral = Pid::new(1000, 0, 0, None, Some(200));
    let tolerances = Tolerances::new().error(5).velocity(50);
    let mut motion = MoveToPointFuture::new(target, linear, lateral, tolerances, Some(20_000));
    let (mut x, mut y, mut theta) = (0.0f64, 0.0f64, heading);
    let mut velocity = 0.0;
    let mut now = 0u64;
    let mut distances = Vec::new();
    let mut stops = 0;
    let mut finished = false;
    for _ in 0..ticks {
        let s = sample(x, y, theta, velocity, now);
        let (dx, dy) = ((target.x - s.position.x) as f64, (target.y - s.position.y) as f64);
        distances.push((dx * dx + dy * dy).sqrt());
        match motion.tick(s) {
            SeekAction::Wait => {}
            SeekAction::Drive { throttle, steer } => {
                assert!(!finished);
                theta += steer as f64 * 0.001;
                x += throttle as f64 * theta.cos();
                y += throttle as f64 * theta.sin();
                velocity = throttle.abs() as f64;
            }
            SeekAction::Stop => {
                stops += 1;
                finished = true;
                break;
            }
        }
        now += 5;
    }
    (distances, stops, finished)
}

#[test]
fn move_to_point_straight_ahead_converges_monotonically() {
    let (distances, stops, finished) = simulate(Vec2::new(1000, 0), 0.0, 2000);
    assert!(finished);
    assert_eq!(stops, 1);
    for w in distances.windows(2) {
        assert!(w[1] <= w[0] + 1e-9);
    }
    assert!(*distances.last().unwrap() < 6.0);
}

#[test]
fn move_to_point_off_axis_target_completes() {
    let (distances, stops, finished) = simulate(Vec2::new(800, 600), 0.0, 4000);
    assert!(finished);
    assert_eq!(stops, 1);
    assert!(*distances.last().unwrap() < 6.0);
    assert!(distances.len() < 4000);
    for w in distances.windows(2) {
        assert!(w[1] <= w[0] + 1e-9);
    }
}

#[test]
fn move_to_point_first_tick_waits_then_drives() {
    let linear = Pid::new(1000, 0, 0, None, None);
    let lateral = Pid::new(1000, 0, 0, None, None);
    let mut motion = MoveToPointFuture::new(Vec2::new(100, 0), linear, lateral, Tolerances::new().error(1), None);
    let s = TrackingSample { position: Vec2::new(0, 0), heading_cos: 10_000, heading_sin: 0, linear_velocity: 0, now: 7 };
    assert_eq!(motion.tick(s), SeekAction::Wait);
    assert_eq!(motion.start_time, Some(7));
    let s = TrackingSample { now: 12, ..s };
    assert_eq!(motion.tick(s), SeekAction::Drive { throttle: 100, steer: 0 });
    assert_eq!(motion.prev_time, Some(12));
}

#[test]
fn move_to_point_target_behind_drives_backward() {
    let linear = Pid::new(1000, 0, 0, None, None);
    let lateral = Pid::new(1000, 0, 0, None, None);
    let mut motion = MoveToPointFuture::new(Vec2::new(-100, 0), linear, lateral, Tolerances::new().error(1), None);
    let s = TrackingSample { position: Vec2::new(0, 0), heading_cos: 10_000, heading_sin: 0, linear_velocity: 0, now: 0 };
    motion.tick(s);
    assert_eq!(motion.tick(TrackingSample { now: 5, ..s }), SeekAction::Drive { throttle: -100, steer: 0 });
}

#[test]
fn move_to_point_timeout_stops() {
    let linear = Pid::new(1000, 0, 0, None, None);
    let lateral = Pid::new(1000, 0, 0, None, None);
    let mut motion = MoveToPointFuture::new(Vec2::new(100, 0), linear, lateral, Tolerances::new().error(1), None);
    motion.with_timeout(10).with_linear_kp(500);
    assert_eq!(motion.linear_controller.kp, 500);
    let s = TrackingSample { position: Vec2::new(0, 0), heading_cos: 10_000, heading_sin: 0, linear_velocity: 0, now: 0 };
    assert_eq!(motion.tick(s), SeekAction::Wait);
    assert_eq!(motion.tick(TrackingSample { now: 10, ..s }), SeekAction::Drive { throttle: 50, steer: 0 });
    assert_eq!(motion.tick(TrackingSample { now: 11, ..s }), SeekAction::Stop);
}

#[test]
fn move_to_point_modifiers_update_fields() {
    let linear = Pid::new(1000, 0, 0, None, None);
    let lateral = Pid::new(1000, 0, 0, None, None);
    let mut motion = MoveToPointFuture::new(Vec2::new(100, 0), linear, lateral, Tolerances::new(), None);
    motion
        .reverse()
        .with_error_tolerance(3)
        .with_velocity_tolerance(4)
        .with_tolerance_duration(100)
        .with_lateral_gains(1, 2, 3)
        .with_lateral_output_limit(9)
        .with_linear_integration_range(7);
    assert!(motion.reverse);
    assert_eq!(motion.tolerances.error_tolerance, Some(3));
    assert_eq!(motion.tolerances.velocity_tolerance, Some(4));
    assert_eq!(motion.tolerances.duration, Some(100));
    assert_eq!((motion.lateral_controller.kp, motion.lateral_controller.ki, motion.lateral_controller.kd), (1, 2, 3));
    assert_eq!(motion.lateral_controller.output_limit, Some(9));
    assert_eq!(motion.linear_controller.integration_range, Some(7));
    motion.without_error_tolerance().without_lateral_output_limit().without_timeout();
    assert_eq!(motion.tolerances.error_tolerance, None);
    assert_eq!(motion.lateral_controller.output_limit, None);
    assert_eq!(motion.timeout, None);
}

#[test]
fn move_to_point_with_bang_bang_lateral() {
    let linear = Pid::new(1000, 0, 0, None, None);
    let lateral = BangBang::new(7, 2);
    let mut motion = MoveToPointFuture::new(Vec2::new(100, 100), linear, lateral, Tolerances::new().error(1), None);
    let s = TrackingSample { position: Vec2::new(0, 0), heading_cos: 10_000, heading_sin: 0, linear_velocity: 0, now: 0 };
    assert_eq!(motion.tick(s), SeekAction::Wait);
    // cross = -10_000 * 100, so the cross-track error is -100 and the lateral
    // error is 100; distance 141 tapered by 1_000_000 / (10_000 * 141)
    assert_eq!(motion.tick(TrackingSample { now: 5, ..s }), SeekAction::Drive { throttle: 100, steer: 7 });
}

#[test]
fn feedback_trait_dispatches() {
    let mut pid = Pid::new(1000, 0, 0, None, None);
    assert_eq!(Feedback::update(&mut pid, 0, 25, 5), 25);
    let mut tbh = TakeBackHalf::new(1000);
    assert_eq!(Feedback::update(&mut tbh, 0, 25, 5), 25);
    let mut bb = BangBang::new(3, 1);
    assert_eq!(Feedback::update(&mut bb, 5, 0, 5), -3);
}

#[test]
fn move_to_point_throttle_within_linear_limit_at_short_range() {
    let linear = Pid::new(1_000_000, 0, 0, None, Some(1000));
    let lateral = Pid::new(1000, 0, 0, None, None);
    let mut motion = MoveToPointFuture::new(Vec2::new(1, 1), linear, lateral, Tolerances::new().error(0), None);
    let s = TrackingSample { position: Vec2::new(0, 0), heading_cos: 7071, heading_sin: 7071, linear_velocity: 0, now: 0 };
    motion.tick(s);
    match motion.tick(TrackingSample { now: 5, ..s }) {
        SeekAction::Drive { throttle, .. } => assert_eq!(throttle, 1000),
        other => panic!("expected a drive command, got {:?}", other),
    }
}

#[test]
fn move_to_point_drive_signals_stay_in_drive_range() {
    let linear = Pid::new(1_000_000, 0, 0, None, None);
    let lateral = Pid::new(-1_000_000, 0, 0, None, None);
    let far = 1_000_000_000;
    let mut motion = MoveToPointFuture::new(Vec2::new(far, far), linear, lateral, Tolerances::new().error(0), None);
    let s = TrackingSample { position: Vec2::new(-far, -far), heading_cos: 0, heading_sin: -10_000, linear_velocity: 0, now: 0 };
    motion.tick(s);
    match motion.tick(TrackingSample { now: 5, ..s }) {
        SeekAction::Drive { throttle, steer } => {
            assert!(throttle.abs() <= i64::MAX / 2);
            assert!(steer.abs() <= i64::MAX / 2);
        }
        other => panic!("expected a drive command, got {:?}", other),
    }
}
