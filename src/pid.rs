//! Feedback controllers: a linear PID and a PID on wrapped angle error.

use vstd::prelude::*;
use crate::angle::{Angle, wrap_half, angle_error};
use crate::fixed::{abs, clamp_i64, div_trunc, div_toward_zero, saturate, SCALE};

verus! {

/// A feedback controller: from a measurement, a setpoint and the time since
/// the previous update, a control signal (in millionths).
pub trait Feedback<S>: Sized {
    /// The controller after one update, and the signal that update returns.
    spec fn updated(&self, measurement: S, setpoint: S, dt_ms: u64) -> (Self, i64);

    /// Computes a control signal, advancing the controller's internal state.
    fn update(&mut self, measurement: S, setpoint: S, dt_ms: u64) -> (r: i64)
        ensures
            (*final(self), r) == old(self).updated(measurement, setpoint, dt_ms),
    ;
}

/// Whether an error of `error` lies inside the optional integration range.
pub open spec fn integrates(range: Option<i64>, error: int) -> bool {
    match range {
        Some(r) => abs(error) < r as int,
        None => true,
    }
}

/// The integral after an update: `error * dt` is added inside the
/// integration range (saturating at the bounds of `i64`); outside it the
/// integral is cleared, so that it cannot wind up far from the target.
pub open spec fn next_integral(range: Option<i64>, integral: i64, error: i64, dt_ms: u64) -> i64 {
    if integrates(range, error as int) {
        clamp_i64(integral + error * dt_ms) as i64
    } else {
        0
    }
}

/// The proportional term: `kp * error`.
pub open spec fn proportional(kp: i64, error: i64) -> int {
    div_trunc(kp * error, SCALE as int)
}

/// The integral term: `ki * integral`, the integral counting
/// millionth-units times milliseconds.
pub open spec fn integral_term(ki: i64, integral: i64) -> int {
    div_trunc(ki * integral, SCALE * 1000)
}

/// The derivative term: `kd` times the change of error per second; zero
/// when no time has passed.
pub open spec fn derivative_term(kd: i64, error: i64, prev_error: i64, dt_ms: u64) -> int {
    if dt_ms == 0 {
        0
    } else {
        div_trunc(kd * (error - prev_error), dt_ms * 1000)
    }
}

/// `v` clamped to `[-|limit|, |limit|]` when a limit is set, then to `i64`.
pub open spec fn limited(limit: Option<i64>, v: int) -> i64 {
    let w = match limit {
        Some(l) => if v > abs(l as int) {
            abs(l as int)
        } else if v < -abs(l as int) {
            -abs(l as int)
        } else {
            v
        },
        None => v,
    };
    clamp_i64(w) as i64
}

/// The signal of one PID update whose integral has already been advanced.
pub open spec fn pid_signal(
    kp: i64,
    ki: i64,
    kd: i64,
    limit: Option<i64>,
    integral: i64,
    error: i64,
    prev_error: i64,
    dt_ms: u64,
) -> i64 {
    limited(
        limit,
        proportional(kp, error) + integral_term(ki, integral) + derivative_term(
            kd,
            error,
            prev_error,
            dt_ms,
        ),
    )
}

/// A quotient toward zero times its positive divisor stays within the dividend.
proof fn lemma_div_trunc_scaled(a: int, b: int)
    requires
        b >= 1,
    ensures
        abs(div_trunc(a, b)) * b <= abs(a),
{
    let n = abs(a);
    vstd::arithmetic::div_mod::lemma_fundamental_div_mod(n, b);
    vstd::arithmetic::div_mod::lemma_mod_pos_bound(n, b);
    vstd::arithmetic::div_mod::lemma_div_pos_is_pos(n, b);
    assert(abs(div_trunc(a, b)) == n / b);
    assert((n / b) * b == b * (n / b)) by (nonlinear_arith);
}

/// A product of two bounded factors is bounded by the product of the bounds.
proof fn lemma_mul_bound(a: int, b: int, ba: int, bb: int)
    requires
        abs(a) <= ba,
        abs(b) <= bb,
    ensures
        abs(a * b) <= ba * bb,
{
    assert(abs(a * b) == abs(a) * abs(b)) by (nonlinear_arith);
    assert(abs(a) * abs(b) <= ba * bb) by (nonlinear_arith)
        requires
            0 <= abs(a) <= ba,
            0 <= abs(b) <= bb,
    ;
}

/// One PID step on an error: the new integral and the signal.
fn pid_step(
    kp: i64,
    ki: i64,
    kd: i64,
    range: Option<i64>,
    limit: Option<i64>,
    integral: i64,
    prev_error: i64,
    error: i64,
    dt_ms: u64,
) -> (r: (i64, i64))
    ensures
        r.0 == next_integral(range, integral, error, dt_ms),
        r.1 == pid_signal(kp, ki, kd, limit, r.0, error, prev_error, dt_ms),
{
    let inside = match range {
        Some(rg) => (error as i128) < (rg as i128) && -(error as i128) < (rg as i128),
        None => true,
    };
    let new_integral: i64 = if inside {
        proof {
            lemma_mul_bound(error as int, dt_ms as int, 0x8000_0000_0000_0000, 0xffff_ffff_ffff_ffff);
        }
        let step: i128 = error as i128 * dt_ms as i128;
        saturate(integral as i128 + step)
    } else {
        0
    };
    proof {
        lemma_mul_bound(kp as int, error as int, 0x8000_0000_0000_0000, 0x8000_0000_0000_0000);
        lemma_mul_bound(ki as int, new_integral as int, 0x8000_0000_0000_0000, 0x8000_0000_0000_0000);
    }
    let pp: i128 = kp as i128 * error as i128;
    let ii: i128 = ki as i128 * new_integral as i128;
    proof {
        lemma_div_trunc_scaled(pp as int, SCALE as int);
        lemma_div_trunc_scaled(ii as int, SCALE * 1000);
    }
    let p: i128 = div_toward_zero(pp, SCALE as i128);
    let i: i128 = div_toward_zero(ii, SCALE as i128 * 1000);
    let d: i128 = if dt_ms == 0 {
        0
    } else {
        let diff: i128 = error as i128 - prev_error as i128;
        proof {
            lemma_mul_bound(kd as int, diff as int, 0x8000_0000_0000_0000, 0xffff_ffff_ffff_ffff);
        }
        let dd: i128 = kd as i128 * diff;
        let den: i128 = dt_ms as i128 * 1000;
        proof {
            lemma_div_trunc_scaled(dd as int, den as int);
            assert(abs(div_trunc(dd as int, den as int)) <= 0x8000_0000_0000_0000int * 0xffff_ffff_ffff_ffff / 1000)
                by (nonlinear_arith)
                requires
                    abs(div_trunc(dd as int, den as int)) * den <= abs(dd as int),
                    abs(dd as int) <= 0x8000_0000_0000_0000 * 0xffff_ffff_ffff_ffff,
                    den >= 1000,
            ;
        }
        div_toward_zero(dd, den)
    };
    proof {
        assert(abs(p as int) <= 0x4000_0000_0000_0000_0000_0000_0000_0000int / 1_000_000)
            by (nonlinear_arith)
            requires
                abs(p as int) * 1_000_000 <= 0x4000_0000_0000_0000_0000_0000_0000_0000,
        ;
        assert(abs(i as int) <= 0x4000_0000_0000_0000_0000_0000_0000_0000int / 1_000_000_000)
            by (nonlinear_arith)
            requires
                abs(i as int) * 1_000_000_000 <= 0x4000_0000_0000_0000_0000_0000_0000_0000,
        ;
    }
    let sum: i128 = p + i + d;
    let bounded: i128 = match limit {
        Some(l) => {
            let m: i128 = if l >= 0 {
                l as i128
            } else {
                -(l as i128)
            };
            if sum > m {
                m
            } else if sum < -m {
                -m
            } else {
                sum
            }
        },
        None => sum,
    };
    (new_integral, saturate(bounded))
}

/// A proportional-integral-derivative controller on a scalar error.
///
/// Gains count millionths: `kp` is signal per unit of error, `ki` signal
/// per unit-second, `kd` signal per unit per second.
#[derive(Clone, Copy, Debug, PartialEq, Eq, Structural)]
pub struct Pid {
    pub kp: i64,
    pub ki: i64,
    pub kd: i64,
    /// Errors at least this large are not integrated.
    pub integration_range: Option<i64>,
    /// Magnitude to which the signal is clamped.
    pub output_limit: Option<i64>,
    /// Accumulated error times time, in millionth-units times milliseconds.
    pub integral: i64,
    /// The error of the previous update.
    pub prev_error: i64,
}

impl Pid {
    /// A controller with the given gains and range, no output limit and no history.
    pub fn new(kp: i64, ki: i64, kd: i64, integration_range: Option<i64>) -> (r: Pid)
        ensures
            r == (Pid {
                kp,
                ki,
                kd,
                integration_range,
                output_limit: None,
                integral: 0,
                prev_error: 0,
            }),
    {
        Pid { kp, ki, kd, integration_range, output_limit: None, integral: 0, prev_error: 0 }
    }

    /// The gains `(kp, ki, kd)`.
    pub fn gains(&self) -> (r: (i64, i64, i64))
        ensures
            r == (self.kp, self.ki, self.kd),
    {
        (self.kp, self.ki, self.kd)
    }

    /// Sets all three gains.
    pub fn set_gains(&mut self, kp: i64, ki: i64, kd: i64)
        ensures
            *final(self) == (Pid { kp, ki, kd, ..*old(self) }),
    {
        self.kp = kp;
        self.ki = ki;
        self.kd = kd;
    }

    /// Sets the proportional gain.
    pub fn set_kp(&mut self, kp: i64)
        ensures
            *final(self) == (Pid { kp, ..*old(self) }),
    {
        self.kp = kp;
    }

    /// Sets the integral gain.
    pub fn set_ki(&mut self, ki: i64)
        ensures
            *final(self) == (Pid { ki, ..*old(self) }),
    {
        self.ki = ki;
    }

    /// Sets the derivative gain.
    pub fn set_kd(&mut self, kd: i64)
        ensures
            *final(self) == (Pid { kd, ..*old(self) }),
    {
        self.kd = kd;
    }

    /// Sets or clears the integration range.
    pub fn set_integration_range(&mut self, range: Option<i64>)
        ensures
            *final(self) == (Pid { integration_range: range, ..*old(self) }),
    {
        self.integration_range = range;
    }

    /// Sets or clears the output limit.
    pub fn set_output_limit(&mut self, limit: Option<i64>)
        ensures
            *final(self) == (Pid { output_limit: limit, ..*old(self) }),
    {
        self.output_limit = limit;
    }
}

impl Feedback<i64> for Pid {
    open spec fn updated(&self, measurement: i64, setpoint: i64, dt_ms: u64) -> (Pid, i64) {
        let error = clamp_i64(setpoint - measurement) as i64;
        let integral = next_integral(self.integration_range, self.integral, error, dt_ms);
        (
            Pid { integral, prev_error: error, ..*self },
            pid_signal(
                self.kp,
                self.ki,
                self.kd,
                self.output_limit,
                integral,
                error,
                self.prev_error,
                dt_ms,
            ),
        )
    }

    fn update(&mut self, measurement: i64, setpoint: i64, dt_ms: u64) -> (r: i64) {
        let error = saturate(setpoint as i128 - measurement as i128);
        let (integral, signal) = pid_step(
            self.kp,
            self.ki,
            self.kd,
            self.integration_range,
            self.output_limit,
            self.integral,
            self.prev_error,
            error,
            dt_ms,
        );
        self.integral = integral;
        self.prev_error = error;
        signal
    }
}

/// The integration range of an angular controller as a magnitude in microdegrees.
pub open spec fn angle_range(range: Option<Angle>) -> Option<i64> {
    match range {
        Some(a) => Some(a.micro_degrees),
        None => None,
    }
}

/// A PID controller on the shortest rotation from the measured heading to
/// the target heading. The error counts microdegrees, so gains are signal
/// (in millionths) per degree, per degree-second and per degree per second.
#[derive(Clone, Copy, Debug, PartialEq, Eq, Structural)]
pub struct AngularPid {
    pub kp: i64,
    pub ki: i64,
    pub kd: i64,
    /// Errors at least this large are not integrated.
    pub integration_range: Option<Angle>,
    /// Magnitude to which the signal is clamped.
    pub output_limit: Option<i64>,
    /// Accumulated error times time, in microdegrees times milliseconds.
    pub integral: i64,
    /// The wrapped error of the previous update, in microdegrees.
    pub prev_error: i64,
}

impl AngularPid {
    /// A controller with the given gains and range, no output limit and no history.
    pub fn new(kp: i64, ki: i64, kd: i64, integration_range: Option<Angle>) -> (r: AngularPid)
        ensures
            r == (AngularPid {
                kp,
                ki,
                kd,
                integration_range,
                output_limit: None,
                integral: 0,
                prev_error: 0,
            }),
    {
        AngularPid { kp, ki, kd, integration_range, output_limit: None, integral: 0, prev_error: 0 }
    }

    /// The gains `(kp, ki, kd)`.
    pub fn gains(&self) -> (r: (i64, i64, i64))
        ensures
            r == (self.kp, self.ki, self.kd),
    {
        (self.kp, self.ki, self.kd)
    }

    /// Sets all three gains.
    pub fn set_gains(&mut self, kp: i64, ki: i64, kd: i64)
        ensures
            *final(self) == (AngularPid { kp, ki, kd, ..*old(self) }),
    {
        self.kp = kp;
        self.ki = ki;
        self.kd = kd;
    }

    /// Sets the proportional gain.
    pub fn set_kp(&mut self, kp: i64)
        ensures
            *final(self) == (AngularPid { kp, ..*old(self) }),
    {
        self.kp = kp;
    }

    /// Sets the integral gain.
    pub fn set_ki(&mut self, ki: i64)
        ensures
            *final(self) == (AngularPid { ki, ..*old(self) }),
    {
        self.ki = ki;
    }

    /// Sets the derivative gain.
    pub fn set_kd(&mut self, kd: i64)
        ensures
            *final(self) == (AngularPid { kd, ..*old(self) }),
    {
        self.kd = kd;
    }

    /// Sets or clears the integration range.
    pub fn set_integration_range(&mut self, range: Option<Angle>)
        ensures
            *final(self) == (AngularPid { integration_range: range, ..*old(self) }),
    {
        self.integration_range = range;
    }

    /// Sets or clears the output limit.
    pub fn set_output_limit(&mut self, limit: Option<i64>)
        ensures
            *final(self) == (AngularPid { output_limit: limit, ..*old(self) }),
    {
        self.output_limit = limit;
    }
}

impl Feedback<Angle> for AngularPid {
    open spec fn updated(&self, measurement: Angle, setpoint: Angle, dt_ms: u64) -> (AngularPid, i64) {
        let error = wrap_half(setpoint.micro_degrees - measurement.micro_degrees) as i64;
        let range = angle_range(self.integration_range);
        let integral = next_integral(range, self.integral, error, dt_ms);
        (
            AngularPid { integral, prev_error: error, ..*self },
            pid_signal(
                self.kp,
                self.ki,
                self.kd,
                self.output_limit,
                integral,
                error,
                self.prev_error,
                dt_ms,
            ),
        )
    }

    fn update(&mut self, measurement: Angle, setpoint: Angle, dt_ms: u64) -> (r: i64) {
        let error = angle_error(setpoint, measurement).micro_degrees;
        let range = match self.integration_range {
            Some(a) => Some(a.micro_degrees),
            None => None,
        };
        let (integral, signal) = pid_step(
            self.kp,
            self.ki,
            self.kd,
            range,
            self.output_limit,
            self.integral,
            self.prev_error,
            error,
            dt_ms,
        );
        self.integral = integral;
        self.prev_error = error;
        signal
    }
}

} // verus!
