use aubie2::angle::{Angle, DEGREE};
use aubie2::motion::basic::{Basic, BasicExt};
use aubie2::motion::cartesian_drive::{CartesianDriveFuture, Coordinate, Reading};
use aubie2::motion::distance_sensor::{DistanceSensorDriving, RangeReading};
use aubie2::motion::{Motion, Observation, Step, TICK_MS};
use aubie2::pid::{AngularPid, Pid};
use aubie2::tolerances::Tolerances;

const UNIT: i64 = 1_000_000;

fn deg(d: i64) -> Angle {
    Angle::from_micro_degrees(d * DEGREE)
}

fn basic(timeout: Option<u64>) -> Basic<Pid, AngularPid> {
    Basic {
        linear_controller: Pid::new(100_000, 1_000, 10_000, Some(3 * UNIT)),
        angular_controller: AngularPid::new(52_360, 1_745, 3_054, Some(deg(5))),
        linear_tolerances: Tolerances::new().error(UNIT).velocity(250_000).duration(15),
        angular_tolerances: Tolerances::new()
            .error(8 * DEGREE)
            .velocity(2_864_789)
            .duration(15),
        timeout,
    }
}

/// A robot whose forward speed, in units per second, is twenty times the
/// linear signal and whose heading follows the angular signal.
struct Sim {
    x: i64,
    heading: i64,
    v: i64,
    w: i64,
}

impl Sim {
    fn reading(&self) -> Reading {
        Reading {
            x: self.x,
            y: 0,
            heading: Angle::from_micro_degrees(self.heading),
            linear_velocity: self.v,
            angular_velocity: self.w,
        }
    }

    fn apply(&mut self, linear: i64, angular: i64) {
        self.v = linear.clamp(-12 * UNIT, 12 * UNIT) * 20;
        self.w = angular.clamp(-12 * UNIT, 12 * UNIT) * 10;
    }

    fn advance(&mut self, ms: i64) {
        self.x += self.v * ms / 1000;
        self.heading += self.w * ms / 1000;
    }
}

/// Polls every millisecond until the motion stops; returns the stop time
/// and the number of stop requests seen, polling a while longer after it.
fn run_to_end(
    drive: &mut CartesianDriveFuture<Pid, AngularPid>,
    sim: &mut Sim,
    limit_ms: u64,
) -> (Option<u64>, usize) {
    let mut stop_at = None;
    let mut stops = 0;
    let mut now = 0u64;
    while now <= limit_ms {
        match drive.poll(now, &sim.reading()) {
            Step::Stop => {
                stops += 1;
                sim.apply(0, 0);
                if stop_at.is_none() {
                    stop_at = Some(now);
                }
            }
            Step::Drive { linear, angular } => sim.apply(linear, angular),
            Step::Wait | Step::Done => {}
        }
        sim.advance(1);
        now += 1;
        if let Some(t) = stop_at {
            if now > t + 50 {
                break;
            }
        }
    }
    (stop_at, stops)
}

#[test]
fn drive_to_x_settles_near_target() {
    let mut settings = basic(Some(5000));
    let mut drive = settings.drive_to_x(24 * UNIT, deg(0));
    let mut sim = Sim { x: 0, heading: 0, v: 0, w: 0 };
    let (stop_at, stops) = run_to_end(&mut drive, &mut sim, 6000);
    let t = stop_at.expect("motion must finish");
    assert!(t < 5000, "finished at {}", t);
    assert_eq!(stops, 1);
    assert!((sim.x - 24 * UNIT).abs() <= UNIT, "x = {}", sim.x);
    assert!(sim.heading.abs() <= 8 * DEGREE);
    assert_eq!(sim.v, 0);
    let state = drive.motion.state.unwrap();
    assert!(state.linear_settled && state.angular_settled && state.finished);
}

#[test]
fn unreachable_tolerance_times_out_after_timeout() {
    let mut settings = basic(Some(200));
    let mut drive = settings.drive_to_x(24 * UNIT, deg(0));
    drive.with_linear_error_tolerance(0);
    // The robot never moves, so the error never reaches zero.
    let reading = Reading {
        x: 0,
        y: 0,
        heading: deg(0),
        linear_velocity: 0,
        angular_velocity: 0,
    };
    let mut now = 0u64;
    let mut stop_at = None;
    let mut stops = 0;
    while now <= 400 {
        match drive.poll(now, &reading) {
            Step::Stop => {
                stops += 1;
                stop_at.get_or_insert(now);
            }
            Step::Drive { .. } => assert!(stop_at.is_none()),
            Step::Wait => assert!(stop_at.is_none()),
            Step::Done => assert!(stop_at.is_some()),
        }
        now += 1;
    }
    let t = stop_at.expect("motion must time out");
    assert!(t > 200 && t <= 200 + TICK_MS, "stopped at {}", t);
    assert_eq!(stops, 1);
    assert!(!drive.motion.state.unwrap().linear_settled);
}

#[test]
fn without_timeout_never_stops_unsettled() {
    let mut settings = basic(None);
    let mut drive = settings.drive_to_y(24 * UNIT, deg(0));
    let reading = Reading {
        x: 0,
        y: 0,
        heading: deg(0),
        linear_velocity: 0,
        angular_velocity: 0,
    };
    let mut now = 0u64;
    while now < 20_000 {
        assert!(drive.poll(now, &reading) != Step::Stop);
        now += 5;
    }
}

#[test]
fn first_poll_waits_and_ticks_every_five_ms() {
    let mut settings = basic(Some(1000));
    let mut drive = settings.drive_to_x(24 * UNIT, deg(0));
    let r = Reading { x: 0, y: 0, heading: deg(0), linear_velocity: 0, angular_velocity: 0 };
    assert_eq!(drive.poll(100, &r), Step::Wait);
    assert_eq!(drive.motion.state.unwrap().start_ms, 100);
    assert_eq!(drive.poll(104, &r), Step::Wait);
    assert!(matches!(drive.poll(105, &r), Step::Drive { .. }));
    assert_eq!(drive.poll(109, &r), Step::Wait);
    assert!(matches!(drive.poll(110, &r), Step::Drive { .. }));
}

#[test]
fn settled_and_timed_out_together_stop_once() {
    let mut settings = basic(Some(10));
    settings.linear_tolerances = Tolerances::new().error(UNIT);
    settings.angular_tolerances = Tolerances::new();
    let mut drive = settings.drive_to_x(0, deg(0));
    let r = Reading { x: 0, y: 0, heading: deg(0), linear_velocity: 0, angular_velocity: 0 };
    assert_eq!(drive.poll(0, &r), Step::Wait);
    // Both axes settle on the tick at which the timeout has also passed.
    assert_eq!(drive.poll(50, &r), Step::Stop);
    assert_eq!(drive.poll(55, &r), Step::Done);
    assert_eq!(drive.poll(100, &r), Step::Done);
}

#[test]
fn heading_error_of_ninety_degrees_gives_no_forward_drive() {
    let mut settings = basic(Some(1000));
    let mut drive = settings.drive_to_x(24 * UNIT, deg(90));
    let r = Reading { x: 0, y: 0, heading: deg(0), linear_velocity: 0, angular_velocity: 0 };
    drive.poll(0, &r);
    match drive.poll(5, &r) {
        Step::Drive { linear, angular } => {
            assert_eq!(linear, 0);
            assert!(angular > 0);
        }
        other => panic!("unexpected {:?}", other),
    }
}

#[test]
fn aligned_heading_passes_linear_signal_through() {
    let mut settings = basic(Some(1000));
    let mut drive = settings.drive_to_x(24 * UNIT, deg(0));
    let r = Reading { x: 0, y: 0, heading: deg(0), linear_velocity: 0, angular_velocity: 0 };
    drive.poll(0, &r);
    let mut pid = Pid::new(100_000, 1_000, 10_000, Some(3 * UNIT));
    let expected = aubie2::pid::Feedback::update(&mut pid, 0, 24 * UNIT, 5);
    assert_eq!(drive.poll(5, &r), Step::Drive { linear: expected, angular: 0 });
}

#[test]
fn motions_start_from_fresh_copies() {
    let mut settings = basic(Some(1000));
    let mut first = settings.drive_to_x(24 * UNIT, deg(0));
    let r = Reading { x: 0, y: 0, heading: deg(0), linear_velocity: 0, angular_velocity: 0 };
    first.poll(0, &r);
    first.poll(5, &r);
    assert_ne!(first.motion.linear_controller.prev_error, 0);
    let second = settings.drive_to_x(24 * UNIT, deg(0));
    assert_eq!(second.motion.linear_controller.prev_error, 0);
    assert_eq!(second.motion.state, None);
    assert_eq!(settings.linear_controller.prev_error, 0);
}

#[test]
fn drive_to_y_uses_y_coordinate() {
    let mut settings = basic(Some(1000));
    let mut drive = settings.drive_to_y(10 * UNIT, deg(0));
    assert_eq!(drive.coordinate, Coordinate::Y);
    let r = Reading { x: 10 * UNIT, y: 0, heading: deg(0), linear_velocity: 0, angular_velocity: 0 };
    drive.poll(0, &r);
    match drive.poll(5, &r) {
        Step::Drive { linear, .. } => assert!(linear > 0),
        other => panic!("unexpected {:?}", other),
    }
}

#[test]
fn modifiers_chain_and_apply() {
    let mut settings = basic(Some(1000));
    let mut drive = settings.drive_to_x(24 * UNIT, deg(0));
    drive
        .with_timeout(3000)
        .with_linear_gains(1, 2, 3)
        .with_linear_kp(4)
        .with_linear_ki(5)
        .with_linear_kd(6)
        .with_linear_integration_range(7)
        .with_linear_output_limit(8)
        .with_angular_gains(9, 10, 11)
        .with_angular_kp(12)
        .with_angular_ki(13)
        .with_angular_kd(14)
        .with_angular_integration_range(deg(2))
        .with_angular_output_limit(15)
        .with_linear_error_tolerance(16)
        .with_linear_velocity_tolerance(17)
        .with_linear_tolerance_duration(18)
        .with_angular_error_tolerance(19)
        .with_angular_velocity_tolerance(20)
        .with_angular_tolerance_duration(21);
    let m = &drive.motion;
    assert_eq!(m.timeout, Some(3000));
    assert_eq!(m.linear_controller.gains(), (4, 5, 6));
    assert_eq!(m.linear_controller.integration_range, Some(7));
    assert_eq!(m.linear_controller.output_limit, Some(8));
    assert_eq!(m.angular_controller.gains(), (12, 13, 14));
    assert_eq!(m.angular_controller.integration_range, Some(deg(2)));
    assert_eq!(m.angular_controller.output_limit, Some(15));
    assert_eq!(m.linear_tolerances.error_tolerance, Some(16));
    assert_eq!(m.linear_tolerances.velocity_tolerance, Some(17));
    assert_eq!(m.linear_tolerances.duration, Some(18));
    assert_eq!(m.angular_tolerances.error_tolerance, Some(19));
    assert_eq!(m.angular_tolerances.velocity_tolerance, Some(20));
    assert_eq!(m.angular_tolerances.duration, Some(21));

    drive
        .without_timeout()
        .without_linear_integration_range()
        .without_linear_output_limit()
        .without_angular_integration_range()
        .without_angular_output_limit()
        .without_linear_error_tolerance()
        .without_linear_velocity_tolerance()
        .without_angular_error_tolerance()
        .without_angular_velocity_tolerance()
        .without_tolerance_duration();
    let m = &drive.motion;
    assert_eq!(m.timeout, None);
    assert_eq!(m.linear_controller.integration_range, None);
    assert_eq!(m.linear_controller.output_limit, None);
    assert_eq!(m.angular_controller.integration_range, None);
    assert_eq!(m.angular_controller.output_limit, None);
    assert_eq!(m.linear_tolerances, Tolerances::new());
    assert_eq!(m.angular_tolerances, Tolerances::new());

    drive
        .with_linear_tolerance_duration(5)
        .with_angular_tolerance_duration(6)
        .without_linear_tolerance_duration()
        .without_angular_tolerance_duration();
    assert_eq!(drive.motion.linear_tolerances.duration, None);
    assert_eq!(drive.motion.angular_tolerances.duration, None);

    drive
        .with_linear_tolerances(Tolerances::new().error(1))
        .with_angular_tolerances(Tolerances::new().velocity(2))
        .with_linear_controller(Pid::new(1, 1, 1, None))
        .with_angular_controller(AngularPid::new(2, 2, 2, None));
    assert_eq!(drive.motion.linear_tolerances.error_tolerance, Some(1));
    assert_eq!(drive.motion.angular_tolerances.velocity_tolerance, Some(2));
    assert_eq!(drive.motion.linear_controller.gains(), (1, 1, 1));
    assert_eq!(drive.motion.angular_controller.gains(), (2, 2, 2));
}

#[test]
fn distance_drive_converges_on_reading() {
    let mut settings = DistanceSensorDriving {
        linear_controller: Pid::new(100_000, 0, 0, None),
        angular_controller: AngularPid::new(50_000, 0, 0, None),
        linear_tolerances: Tolerances::new().error(UNIT),
        angular_tolerances: Tolerances::new().error(8 * DEGREE),
        timeout: Some(5000),
    };
    let mut drive = settings.drive_to_distance(10 * UNIT, deg(0));
    let mut reading = RangeReading {
        distance: Some(30 * UNIT),
        heading: deg(0),
        linear_velocity: 0,
        angular_velocity: 0,
    };
    assert_eq!(drive.poll(0, &reading), Step::Wait);
    // The error is the target minus the reading: -20 units.
    match drive.poll(5, &reading) {
        Step::Drive { linear, .. } => assert_eq!(linear, -2 * UNIT),
        other => panic!("unexpected {:?}", other),
    }
    // A failed read skips the tick without stopping.
    reading.distance = None;
    assert_eq!(drive.poll(10, &reading), Step::Wait);
    assert_eq!(drive.poll(12, &reading), Step::Wait);
    reading.distance = Some(10 * UNIT + 500_000);
    assert_eq!(drive.poll(15, &reading), Step::Stop);
    assert_eq!(drive.poll(20, &reading), Step::Done);
}

#[test]
fn distance_drive_failed_reads_still_time_out() {
    let mut settings = DistanceSensorDriving {
        linear_controller: Pid::new(100_000, 0, 0, None),
        angular_controller: AngularPid::new(50_000, 0, 0, None),
        linear_tolerances: Tolerances::new().error(UNIT),
        angular_tolerances: Tolerances::new(),
        timeout: Some(100),
    };
    let mut drive = settings.drive_to_distance(10 * UNIT, deg(0));
    let reading = RangeReading { distance: None, heading: deg(0), linear_velocity: 0, angular_velocity: 0 };
    let mut now = 0u64;
    let mut stop_at = None;
    while now <= 300 && stop_at.is_none() {
        if drive.poll(now, &reading) == Step::Stop {
            stop_at = Some(now);
        }
        now += 5;
    }
    assert_eq!(stop_at, Some(105));
}

#[test]
fn motion_engine_direct_use() {
    let mut m = Motion {
        target_heading: deg(0),
        timeout: Some(1000),
        linear_tolerances: Tolerances::new().error(UNIT),
        angular_tolerances: Tolerances::new().error(DEGREE),
        linear_controller: Pid::new(100_000, 0, 0, None),
        angular_controller: AngularPid::new(50_000, 0, 0, None),
        state: None,
    };
    let obs = |now: u64, measured: i64| Observation {
        now_ms: now,
        linear: Some((measured, 5 * UNIT)),
        heading: deg(0),
        linear_velocity: 0,
        angular_velocity: 0,
    };
    assert_eq!(m.advance(&obs(0, 0)), Step::Wait);
    assert_eq!(m.advance(&obs(5, 0)), Step::Drive { linear: 500_000, angular: 0 });
    assert_eq!(m.advance(&obs(10, 5 * UNIT)), Step::Stop);
}

fn still(x: i64) -> Reading {
    Reading { x, y: 0, heading: deg(0), linear_velocity: 0, angular_velocity: 0 }
}

#[test]
fn replaced_tolerances_wait_their_full_duration() {
    let mut settings = basic(Some(5000));
    settings.angular_tolerances = Tolerances::new();
    let mut drive = settings.drive_to_x(0, deg(0));
    assert_eq!(drive.poll(0, &still(0)), Step::Wait);
    drive.with_linear_tolerances(Tolerances::new().error(UNIT).duration(1000));
    let mut now = 5u64;
    while now < 1005 {
        assert!(matches!(drive.poll(now, &still(0)), Step::Drive { .. }), "at {}", now);
        now += 5;
    }
    // The window opened at the first tick, 5 ms, and holds 1000 ms later.
    assert_eq!(drive.poll(1005, &still(0)), Step::Stop);
}

#[test]
fn threshold_change_mid_motion_restarts_window() {
    let mut settings = basic(Some(5000));
    settings.angular_tolerances = Tolerances::new();
    settings.linear_tolerances = Tolerances::new().error(UNIT).duration(100);
    let mut drive = settings.drive_to_x(0, deg(0));
    drive.poll(0, &still(0));
    drive.poll(5, &still(0));
    drive.poll(50, &still(0));
    assert_eq!(drive.motion.state.unwrap().linear_window, Some(5));
    drive.with_linear_error_tolerance(2 * UNIT);
    assert_eq!(drive.motion.state.unwrap().linear_window, None);
    assert!(matches!(drive.poll(60, &still(0)), Step::Drive { .. }));
    assert!(matches!(drive.poll(155, &still(0)), Step::Drive { .. }));
    assert_eq!(drive.poll(160, &still(0)), Step::Stop);
}

#[test]
fn duration_change_keeps_window() {
    let mut settings = basic(Some(5000));
    settings.angular_tolerances = Tolerances::new();
    settings.linear_tolerances = Tolerances::new().error(UNIT).duration(100);
    let mut drive = settings.drive_to_x(0, deg(0));
    drive.poll(0, &still(0));
    drive.poll(5, &still(0));
    drive.with_linear_tolerance_duration(20);
    assert_eq!(drive.poll(25, &still(0)), Step::Stop);
}

#[test]
fn breach_in_motion_restarts_settling() {
    let mut settings = basic(None);
    settings.angular_tolerances = Tolerances::new();
    settings.linear_tolerances = Tolerances::new().error(UNIT).duration(50);
    let mut drive = settings.drive_to_x(0, deg(0));
    drive.poll(0, &still(0));
    let mut now = 5u64;
    while now <= 40 {
        assert!(matches!(drive.poll(now, &still(0)), Step::Drive { .. }));
        now += 5;
    }
    // One tick two units away from the target.
    assert!(matches!(drive.poll(45, &still(2 * UNIT)), Step::Drive { .. }));
    now = 50;
    while now < 100 {
        assert!(matches!(drive.poll(now, &still(0)), Step::Drive { .. }), "at {}", now);
        now += 5;
    }
    assert_eq!(drive.poll(100, &still(0)), Step::Stop);
}

#[test]
fn failed_read_closes_linear_window() {
    let mut settings = DistanceSensorDriving {
        linear_controller: Pid::new(100_000, 0, 0, None),
        angular_controller: AngularPid::new(50_000, 0, 0, None),
        linear_tolerances: Tolerances::new().error(UNIT).duration(20),
        angular_tolerances: Tolerances::new(),
        timeout: None,
    };
    let mut drive = settings.drive_to_distance(10 * UNIT, deg(0));
    let mut reading = RangeReading {
        distance: Some(10 * UNIT),
        heading: deg(0),
        linear_velocity: 0,
        angular_velocity: 0,
    };
    drive.poll(0, &reading);
    assert!(matches!(drive.poll(5, &reading), Step::Drive { .. }));
    reading.distance = None;
    assert_eq!(drive.poll(10, &reading), Step::Wait);
    reading.distance = Some(10 * UNIT);
    assert!(matches!(drive.poll(15, &reading), Step::Drive { .. }));
    assert!(matches!(drive.poll(30, &reading), Step::Drive { .. }));
    assert_eq!(drive.poll(35, &reading), Step::Stop);
}
