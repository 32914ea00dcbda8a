use aubie2::angle::{angle_error, project, Angle, DEGREE, HALF_TURN, QUARTER_TURN};
use aubie2::fixed::{div_toward_zero, saturate, SCALE};
use aubie2::pid::{AngularPid, Feedback, Pid};
use aubie2::tolerances::Tolerances;

fn deg(d: i64) -> Angle {
    Angle::from_micro_degrees(d * DEGREE)
}

#[test]
fn wrap_takes_short_way_across_zero() {
    let e = angle_error(deg(10), deg(350));
    assert_eq!(e.micro_degrees, 20 * DEGREE);
}

#[test]
fn wrap_takes_short_way_backwards() {
    let e = angle_error(deg(350), deg(10));
    assert_eq!(e.micro_degrees, -20 * DEGREE);
}

#[test]
fn wrap_half_turn_is_positive() {
    assert_eq!(angle_error(deg(180), deg(0)).micro_degrees, HALF_TURN);
    assert_eq!(angle_error(deg(0), deg(180)).micro_degrees, HALF_TURN);
}

#[test]
fn wrap_stays_in_half_open_range() {
    let mut target = -1_000_000_000_000i64;
    while target < 1_000_000_000_000 {
        let e = angle_error(Angle::from_micro_degrees(target), deg(37)).micro_degrees;
        assert!(e > -HALF_TURN && e <= HALF_TURN);
        assert_eq!((target - 37 * DEGREE - e).rem_euclid(360 * DEGREE), 0);
        target += 7_777_777_777;
    }
}

#[test]
fn wrapped_half_of_large_angle() {
    assert_eq!(deg(730).wrapped_half().micro_degrees, 10 * DEGREE);
    assert_eq!(deg(-190).wrapped_half().micro_degrees, 170 * DEGREE);
    assert_eq!(Angle::from_degrees(-540).wrapped_half().micro_degrees, HALF_TURN);
}

#[test]
fn extreme_angles_do_not_overflow() {
    let e = angle_error(Angle::from_micro_degrees(i64::MAX), Angle::from_micro_degrees(i64::MIN));
    assert!(e.micro_degrees > -HALF_TURN && e.micro_degrees <= HALF_TURN);
}

#[test]
fn projection_unattenuated_at_zero_error() {
    assert_eq!(project(2_400_000, deg(0)), 2_400_000);
    assert_eq!(project(-7, deg(0)), -7);
}

#[test]
fn projection_vanishes_at_right_angle() {
    assert_eq!(project(2_400_000, Angle::from_micro_degrees(QUARTER_TURN)), 0);
    assert_eq!(project(-9_000_000, Angle::from_micro_degrees(-QUARTER_TURN)), 0);
}

#[test]
fn projection_reverses_past_right_angle() {
    assert_eq!(project(1_000_000, deg(180)), -1_000_000);
    assert!(project(1_000_000, deg(135)) < 0);
    assert!(project(1_000_000, deg(-135)) < 0);
}

#[test]
fn projection_at_sixty_degrees_is_half() {
    assert_eq!(project(1_000_000, deg(60)), 500_000);
    assert_eq!(project(1_000_000, deg(-60)), 500_000);
}

#[test]
fn projection_close_to_true_cosine() {
    let mut d = -179i64;
    while d <= 180 {
        let p = project(1_000_000, deg(d)) as f64 / 1e6;
        let c = (d as f64).to_radians().cos();
        assert!((p - c).abs() < 0.002, "{} {} {}", d, p, c);
        d += 1;
    }
}

#[test]
fn fixed_point_helpers() {
    assert_eq!(div_toward_zero(-7, 2), -3);
    assert_eq!(div_toward_zero(7, 2), 3);
    assert_eq!(saturate(1i128 << 100), i64::MAX);
    assert_eq!(saturate(-(1i128 << 100)), i64::MIN);
    assert_eq!(saturate(-5), -5);
    assert_eq!(SCALE, 1_000_000);
}

#[test]
fn tolerance_without_duration_settles_at_once() {
    let t = Tolerances::new().error(1_000_000).velocity(250_000);
    let mut window = None;
    assert!(t.check(&mut window, -900_000, 100_000, 7));
    assert_eq!(window, Some(7));
}

#[test]
fn tolerance_thresholds_are_inclusive_magnitudes() {
    let t = Tolerances::new().error(1_000_000).velocity(250_000);
    let mut window = None;
    assert!(t.check(&mut window, -1_000_000, -250_000, 0));
    assert!(!t.check(&mut window, 1_000_001, 0, 1));
    assert_eq!(window, None);
    assert!(!t.check(&mut window, 0, -250_001, 2));
}

#[test]
fn tolerance_absent_thresholds_always_hold() {
    let t = Tolerances::new();
    let mut window = None;
    assert!(t.check(&mut window, i64::MIN, i64::MAX, 0));
}

#[test]
fn tolerance_waits_for_duration() {
    let t = Tolerances::new().error(1_000_000).duration(15);
    let mut window = None;
    assert!(!t.check(&mut window, 0, 0, 100));
    assert!(!t.check(&mut window, 0, 0, 105));
    assert!(!t.check(&mut window, 0, 0, 114));
    assert!(t.check(&mut window, 0, 0, 115));
}

#[test]
fn tolerance_breach_restarts_window() {
    let t = Tolerances::new().error(1_000_000).velocity(250_000).duration(15);
    let mut window = None;
    assert!(!t.check(&mut window, 0, 0, 100));
    assert!(!t.check(&mut window, 0, 0, 110));
    // One sample outside the velocity threshold.
    assert!(!t.check(&mut window, 0, 300_000, 112));
    assert!(!t.check(&mut window, 0, 0, 115));
    assert!(!t.check(&mut window, 0, 0, 125));
    assert!(t.check(&mut window, 0, 0, 130));
    assert_eq!(window, Some(115));
}

#[test]
fn pid_first_update_exact() {
    let mut pid = Pid::new(100_000, 1_000, 10_000, Some(3_000_000));
    // Outside the integration range: p = 2.4, d = 0.01 * 24 / 0.005 = 48.
    assert_eq!(pid.update(0, 24_000_000, 5), 50_400_000);
    assert_eq!(pid.integral, 0);
    assert_eq!(pid.prev_error, 24_000_000);
    // p = 2.3, d = 0.01 * (23 - 24) / 0.005 = -2.
    assert_eq!(pid.update(1_000_000, 24_000_000, 5), 300_000);
}

#[test]
fn pid_integrates_inside_range() {
    let mut pid = Pid::new(0, 1_000_000, 0, Some(3_000_000));
    assert_eq!(pid.update(0, 2_000_000, 500), 1_000_000);
    assert_eq!(pid.integral, 1_000_000_000);
    assert_eq!(pid.update(0, 2_000_000, 500), 2_000_000);
    // Leaving the range clears the integral.
    assert_eq!(pid.update(0, 5_000_000, 500), 0);
    assert_eq!(pid.integral, 0);
}

#[test]
fn pid_zero_dt_has_no_derivative_or_new_integral() {
    let mut pid = Pid::new(1_000_000, 1_000_000, 1_000_000, None);
    let out = pid.update(0, 3_000_000, 0);
    assert_eq!(out, 3_000_000);
    assert_eq!(pid.integral, 0);
}

#[test]
fn pid_output_limit_clamps_both_ways() {
    let mut pid = Pid::new(1_000_000, 0, 0, None);
    pid.set_output_limit(Some(500_000));
    assert_eq!(pid.update(0, 3_000_000, 5), 500_000);
    assert_eq!(pid.update(0, -3_000_000, 5), -500_000);
    pid.set_output_limit(None);
    assert_eq!(pid.update(0, -3_000_000, 5), -3_000_000);
}

#[test]
fn pid_gain_setters() {
    let mut pid = Pid::new(1, 2, 3, None);
    pid.set_gains(4, 5, 6);
    assert_eq!(pid.gains(), (4, 5, 6));
    pid.set_kp(7);
    pid.set_ki(8);
    pid.set_kd(9);
    assert_eq!(pid.gains(), (7, 8, 9));
    pid.set_integration_range(Some(10));
    assert_eq!(pid.integration_range, Some(10));
}

#[test]
fn pid_extreme_inputs_saturate() {
    let mut pid = Pid::new(i64::MAX, i64::MAX, i64::MAX, None);
    assert_eq!(pid.update(i64::MIN, i64::MAX, 1), i64::MAX);
    assert_eq!(pid.update(i64::MAX, i64::MIN, u64::MAX), i64::MIN);
}

#[test]
fn angular_pid_uses_wrapped_error() {
    let mut pid = AngularPid::new(50_000, 0, 0, None);
    // From 350° to 10° is +20°: 0.05 per degree gives 1.0.
    assert_eq!(pid.update(deg(350), deg(10), 5), 1_000_000);
    assert_eq!(pid.prev_error, 20 * DEGREE);
}

#[test]
fn angular_pid_integration_range_in_angle() {
    let mut pid = AngularPid::new(0, 1_000_000, 0, Some(deg(5)));
    assert_eq!(pid.update(deg(0), deg(4), 1000), 4_000_000);
    assert_eq!(pid.update(deg(0), deg(6), 1000), 0);
    pid.set_output_limit(Some(1));
    pid.set_gains(1_000_000, 0, 0);
    assert_eq!(pid.update(deg(0), deg(6), 1000), 1);
    assert_eq!(pid.gains(), (1_000_000, 0, 0));
}
