//! Driving along one field axis to a coordinate while holding a heading.

use vstd::prelude::*;
use crate::angle::Angle;
use crate::motion::{window_closed, Axis, Motion, Observation, Step};
use crate::pid::{AngularPid, Feedback, Pid};
use crate::tolerances::Tolerances;

verus! {

/// The field axis a motion drives along.
#[derive(Clone, Copy, Debug, PartialEq, Eq, Structural)]
pub enum Coordinate {
    X,
    Y,
}

/// The tracked pose and velocities at one poll.
#[derive(Clone, Copy, Debug, PartialEq, Eq, Structural)]
pub struct Reading {
    /// Position in millionth-units.
    pub x: i64,
    pub y: i64,
    pub heading: Angle,
    /// Forward velocity in millionth-units per second.
    pub linear_velocity: i64,
    /// Angular velocity in microdegrees per second.
    pub angular_velocity: i64,
}

/// Drives forward or backward until the chosen coordinate reaches a target,
/// while turning to a heading.
#[derive(Clone, Copy, Debug)]
pub struct CartesianDriveFuture<L, A> {
    /// Target value of the chosen coordinate, in millionth-units.
    pub target_coordinate: i64,
    pub coordinate: Coordinate,
    pub motion: Motion<L, A>,
}

impl<L: Feedback<i64>, A: Feedback<Angle>> CartesianDriveFuture<L, A> {
    /// The observation that a poll at `now_ms` with `reading` hands the control loop.
    pub open spec fn observation(self, now_ms: u64, reading: Reading) -> Observation {
        Observation {
            now_ms,
            linear: Some(
                (
                    match self.coordinate {
                        Coordinate::X => reading.x,
                        Coordinate::Y => reading.y,
                    },
                    self.target_coordinate,
                ),
            ),
            heading: reading.heading,
            linear_velocity: reading.linear_velocity,
            angular_velocity: reading.angular_velocity,
        }
    }

    /// Polls the motion with the time and the freshest tracking data.
    ///
    /// The linear error is the target coordinate minus the tracked one; the
    /// rest is [`Motion::advance`].
    pub fn poll(&mut self, now_ms: u64, reading: &Reading) -> (r: Step)
        ensures
            final(self).target_coordinate == old(self).target_coordinate,
            final(self).coordinate == old(self).coordinate,
            (final(self).motion, r) == old(self).motion.advanced(
                old(self).observation(now_ms, *reading),
            ),
    {
        let current = match self.coordinate {
            Coordinate::X => reading.x,
            Coordinate::Y => reading.y,
        };
        let obs = Observation {
            now_ms,
            linear: Some((current, self.target_coordinate)),
            heading: reading.heading,
            linear_velocity: reading.linear_velocity,
            angular_velocity: reading.angular_velocity,
        };
        self.motion.advance(&obs)
    }


    /// Modifies this motion's linear feedback controller.
    pub fn with_linear_controller(&mut self, controller: L) -> (r: &mut Self)
        ensures
            *r == (CartesianDriveFuture {
                motion: Motion { linear_controller: controller, ..old(self).motion },
                ..*old(self)
            }),
            *final(self) == *final(r),
    {
        self.motion.linear_controller = controller;
        self
    }

    /// Modifies this motion's angular feedback controller.
    pub fn with_angular_controller(&mut self, controller: A) -> (r: &mut Self)
        ensures
            *r == (CartesianDriveFuture {
                motion: Motion { angular_controller: controller, ..old(self).motion },
                ..*old(self)
            }),
            *final(self) == *final(r),
    {
        self.motion.angular_controller = controller;
        self
    }

    /// Modifies this motion's timeout duration, in milliseconds.
    pub fn with_timeout(&mut self, timeout: u64) -> (r: &mut Self)
        ensures
            *r == (CartesianDriveFuture {
                motion: Motion { timeout: Some(timeout), ..old(self).motion },
                ..*old(self)
            }),
            *final(self) == *final(r),
    {
        self.motion.timeout = Some(timeout);
        self
    }

    /// Removes this motion's timeout duration.
    pub fn without_timeout(&mut self) -> (r: &mut Self)
        ensures
            *r == (CartesianDriveFuture {
                motion: Motion { timeout: None, ..old(self).motion },
                ..*old(self)
            }),
            *final(self) == *final(r),
    {
        self.motion.timeout = None;
        self
    }

    /// Modifies this motion's linear tolerances.
    ///
    /// The axis's settling window closes: it must meet the new thresholds
    /// afresh before it can settle.
    pub fn with_linear_tolerances(&mut self, tolerances: Tolerances) -> (r: &mut Self)
        ensures
            *r == (CartesianDriveFuture {
                motion: Motion {
                    linear_tolerances: tolerances,
                    state: window_closed(old(self).motion.state, Axis::Linear),
                    ..old(self).motion
                },
                ..*old(self)
            }),
            *final(self) == *final(r),
    {
        self.motion.linear_tolerances = tolerances;
        self.motion.close_window(Axis::Linear);
        self
    }

    /// Modifies this motion's linear error tolerance.
    ///
    /// The axis's settling window closes: it must meet the new thresholds
    /// afresh before it can settle.
    pub fn with_linear_error_tolerance(&mut self, tolerance: i64) -> (r: &mut Self)
        ensures
            *r == (CartesianDriveFuture {
                motion: Motion {
                    linear_tolerances: Tolerances {
                        error_tolerance: Some(tolerance),
                        ..old(self).motion.linear_tolerances
                    },
                    state: window_closed(old(self).motion.state, Axis::Linear),
                    ..old(self).motion
                },
                ..*old(self)
            }),
            *final(self) == *final(r),
    {
        self.motion.linear_tolerances.error_tolerance = Some(tolerance);
        self.motion.close_window(Axis::Linear);
        self
    }

    /// Removes this motion's linear error tolerance.
    ///
    /// The axis's settling window closes: it must meet the new thresholds
    /// afresh before it can settle.
    pub fn without_linear_error_tolerance(&mut self) -> (r: &mut Self)
        ensures
            *r == (CartesianDriveFuture {
                motion: Motion {
                    linear_tolerances: Tolerances {
                        error_tolerance: None,
                        ..old(self).motion.linear_tolerances
                    },
                    state: window_closed(old(self).motion.state, Axis::Linear),
                    ..old(self).motion
                },
                ..*old(self)
            }),
            *final(self) == *final(r),
    {
        self.motion.linear_tolerances.error_tolerance = None;
        self.motion.close_window(Axis::Linear);
        self
    }

    /// Modifies this motion's linear velocity tolerance.
    ///
    /// The axis's settling window closes: it must meet the new thresholds
    /// afresh before it can settle.
    pub fn with_linear_velocity_tolerance(&mut self, tolerance: i64) -> (r: &mut Self)
        ensures
            *r == (CartesianDriveFuture {
                motion: Motion {
                    linear_tolerances: Tolerances {
                        velocity_tolerance: Some(tolerance),
                        ..old(self).motion.linear_tolerances
                    },
                    state: window_closed(old(self).motion.state, Axis::Linear),
                    ..old(self).motion
                },
                ..*old(self)
            }),
            *final(self) == *final(r),
    {
        self.motion.linear_tolerances.velocity_tolerance = Some(tolerance);
        self.motion.close_window(Axis::Linear);
        self
    }

    /// Removes this motion's linear velocity tolerance.
    ///
    /// The axis's settling window closes: it must meet the new thresholds
    /// afresh before it can settle.
    pub fn without_linear_velocity_tolerance(&mut self) -> (r: &mut Self)
        ensures
            *r == (CartesianDriveFuture {
                motion: Motion {
                    linear_tolerances: Tolerances {
                        velocity_tolerance: None,
                        ..old(self).motion.linear_tolerances
                    },
                    state: window_closed(old(self).motion.state, Axis::Linear),
                    ..old(self).motion
                },
                ..*old(self)
            }),
            *final(self) == *final(r),
    {
        self.motion.linear_tolerances.velocity_tolerance = None;
        self.motion.close_window(Axis::Linear);
        self
    }

    /// Modifies this motion's linear tolerance duration in milliseconds.
    pub fn with_linear_tolerance_duration(&mut self, tolerance: u64) -> (r: &mut Self)
        ensures
            *r == (CartesianDriveFuture {
                motion: Motion { linear_tolerances: Tolerances { duration: Some(tolerance), ..old(self).motion.linear_tolerances }, ..old(self).motion },
                ..*old(self)
            }),
            *final(self) == *final(r),
    {
        self.motion.linear_tolerances.duration = Some(tolerance);
        self
    }

    /// Removes this motion's linear tolerance duration.
    pub fn without_linear_tolerance_duration(&mut self) -> (r: &mut Self)
        ensures
            *r == (CartesianDriveFuture {
                motion: Motion { linear_tolerances: Tolerances { duration: None, ..old(self).motion.linear_tolerances }, ..old(self).motion },
                ..*old(self)
            }),
            *final(self) == *final(r),
    {
        self.motion.linear_tolerances.duration = None;
        self
    }

    /// Removes this motion's linear and angular tolerance durations.
    pub fn without_tolerance_duration(&mut self) -> (r: &mut Self)
        ensures
            *r == (CartesianDriveFuture {
                motion: Motion { linear_tolerances: Tolerances { duration: None, ..old(self).motion.linear_tolerances },
                    angular_tolerances: Tolerances { duration: None, ..old(self).motion.angular_tolerances }, ..old(self).motion },
                ..*old(self)
            }),
            *final(self) == *final(r),
    {
        self.motion.linear_tolerances.duration = None;
        self.motion.angular_tolerances.duration = None;
        self
    }

    /// Modifies this motion's angular tolerances.
    ///
    /// The axis's settling window closes: it must meet the new thresholds
    /// afresh before it can settle.
    pub fn with_angular_tolerances(&mut self, tolerances: Tolerances) -> (r: &mut Self)
        ensures
            *r == (CartesianDriveFuture {
                motion: Motion {
                    angular_tolerances: tolerances,
                    state: window_closed(old(self).motion.state, Axis::Angular),
                    ..old(self).motion
                },
                ..*old(self)
            }),
            *final(self) == *final(r),
    {
        self.motion.angular_tolerances = tolerances;
        self.motion.close_window(Axis::Angular);
        self
    }

    /// Modifies this motion's angular error tolerance.
    ///
    /// The axis's settling window closes: it must meet the new thresholds
    /// afresh before it can settle.
    pub fn with_angular_error_tolerance(&mut self, tolerance: i64) -> (r: &mut Self)
        ensures
            *r == (CartesianDriveFuture {
                motion: Motion {
                    angular_tolerances: Tolerances {
                        error_tolerance: Some(tolerance),
                        ..old(self).motion.angular_tolerances
                    },
                    state: window_closed(old(self).motion.state, Axis::Angular),
                    ..old(self).motion
                },
                ..*old(self)
            }),
            *final(self) == *final(r),
    {
        self.motion.angular_tolerances.error_tolerance = Some(tolerance);
        self.motion.close_window(Axis::Angular);
        self
    }

    /// Removes this motion's angular error tolerance.
    ///
    /// The axis's settling window closes: it must meet the new thresholds
    /// afresh before it can settle.
    pub fn without_angular_error_tolerance(&mut self) -> (r: &mut Self)
        ensures
            *r == (CartesianDriveFuture {
                motion: Motion {
                    angular_tolerances: Tolerances {
                        error_tolerance: None,
                        ..old(self).motion.angular_tolerances
                    },
                    state: window_closed(old(self).motion.state, Axis::Angular),
                    ..old(self).motion
                },
                ..*old(self)
            }),
            *final(self) == *final(r),
    {
        self.motion.angular_tolerances.error_tolerance = None;
        self.motion.close_window(Axis::Angular);
        self
    }

    /// Modifies this motion's angular velocity tolerance.
    ///
    /// The axis's settling window closes: it must meet the new thresholds
    /// afresh before it can settle.
    pub fn with_angular_velocity_tolerance(&mut self, tolerance: i64) -> (r: &mut Self)
        ensures
            *r == (CartesianDriveFuture {
                motion: Motion {
                    angular_tolerances: Tolerances {
                        velocity_tolerance: Some(tolerance),
                        ..old(self).motion.angular_tolerances
                    },
                    state: window_closed(old(self).motion.state, Axis::Angular),
                    ..old(self).motion
                },
                ..*old(self)
            }),
            *final(self) == *final(r),
    {
        self.motion.angular_tolerances.velocity_tolerance = Some(tolerance);
        self.motion.close_window(Axis::Angular);
        self
    }

    /// Removes this motion's angular velocity tolerance.
    ///
    /// The axis's settling window closes: it must meet the new thresholds
    /// afresh before it can settle.
    pub fn without_angular_velocity_tolerance(&mut self) -> (r: &mut Self)
        ensures
            *r == (CartesianDriveFuture {
                motion: Motion {
                    angular_tolerances: Tolerances {
                        velocity_tolerance: None,
                        ..old(self).motion.angular_tolerances
                    },
                    state: window_closed(old(self).motion.state, Axis::Angular),
                    ..old(self).motion
                },
                ..*old(self)
            }),
            *final(self) == *final(r),
    {
        self.motion.angular_tolerances.velocity_tolerance = None;
        self.motion.close_window(Axis::Angular);
        self
    }

    /// Modifies this motion's angular tolerance duration in milliseconds.
    pub fn with_angular_tolerance_duration(&mut self, tolerance: u64) -> (r: &mut Self)
        ensures
            *r == (CartesianDriveFuture {
                motion: Motion { angular_tolerances: Tolerances { duration: Some(tolerance), ..old(self).motion.angular_tolerances }, ..old(self).motion },
                ..*old(self)
            }),
            *final(self) == *final(r),
    {
        self.motion.angular_tolerances.duration = Some(tolerance);
        self
    }

    /// Removes this motion's angular tolerance duration.
    pub fn without_angular_tolerance_duration(&mut self) -> (r: &mut Self)
        ensures
            *r == (CartesianDriveFuture {
                motion: Motion { angular_tolerances: Tolerances { duration: None, ..old(self).motion.angular_tolerances }, ..old(self).motion },
                ..*old(self)
            }),
            *final(self) == *final(r),
    {
        self.motion.angular_tolerances.duration = None;
        self
    }
}

impl<A: Feedback<Angle>> CartesianDriveFuture<Pid, A> {
    /// Modifies this motion's linear PID gains.
    pub fn with_linear_gains(&mut self, kp: i64, ki: i64, kd: i64) -> (r: &mut Self)
        ensures
            *r == (CartesianDriveFuture {
                motion: Motion {
                    linear_controller: Pid { kp, ki, kd, ..old(self).motion.linear_controller },
                    ..old(self).motion
                },
                ..*old(self)
            }),
            *final(self) == *final(r),
    {
        self.motion.linear_controller.set_gains(kp, ki, kd);
        self
    }

    /// Modifies this motion's linear proportional gain (`kp`).
    pub fn with_linear_kp(&mut self, kp: i64) -> (r: &mut Self)
        ensures
            *r == (CartesianDriveFuture {
                motion: Motion {
                    linear_controller: Pid { kp, ..old(self).motion.linear_controller },
                    ..old(self).motion
                },
                ..*old(self)
            }),
            *final(self) == *final(r),
    {
        self.motion.linear_controller.set_kp(kp);
        self
    }

    /// Modifies this motion's linear integral gain (`ki`).
    pub fn with_linear_ki(&mut self, ki: i64) -> (r: &mut Self)
        ensures
            *r == (CartesianDriveFuture {
                motion: Motion {
                    linear_controller: Pid { ki, ..old(self).motion.linear_controller },
                    ..old(self).motion
                },
                ..*old(self)
            }),
            *final(self) == *final(r),
    {
        self.motion.linear_controller.set_ki(ki);
        self
    }

    /// Modifies this motion's linear derivative gain (`kd`).
    pub fn with_linear_kd(&mut self, kd: i64) -> (r: &mut Self)
        ensures
            *r == (CartesianDriveFuture {
                motion: Motion {
                    linear_controller: Pid { kd, ..old(self).motion.linear_controller },
                    ..old(self).motion
                },
                ..*old(self)
            }),
            *final(self) == *final(r),
    {
        self.motion.linear_controller.set_kd(kd);
        self
    }

    /// Modifies this motion's linear integration range.
    pub fn with_linear_integration_range(&mut self, integration_range: i64) -> (r: &mut Self)
        ensures
            *r == (CartesianDriveFuture {
                motion: Motion {
                    linear_controller: Pid { integration_range: Some(integration_range), ..old(self).motion.linear_controller },
                    ..old(self).motion
                },
                ..*old(self)
            }),
            *final(self) == *final(r),
    {
        self.motion.linear_controller.set_integration_range(Some(integration_range));
        self
    }

    /// Removes this motion's linear integration range.
    pub fn without_linear_integration_range(&mut self) -> (r: &mut Self)
        ensures
            *r == (CartesianDriveFuture {
                motion: Motion {
                    linear_controller: Pid { integration_range: None, ..old(self).motion.linear_controller },
                    ..old(self).motion
                },
                ..*old(self)
            }),
            *final(self) == *final(r),
    {
        self.motion.linear_controller.set_integration_range(None);
        self
    }

    /// Modifies this motion's linear output limit.
    pub fn with_linear_output_limit(&mut self, limit: i64) -> (r: &mut Self)
        ensures
            *r == (CartesianDriveFuture {
                motion: Motion {
                    linear_controller: Pid { output_limit: Some(limit), ..old(self).motion.linear_controller },
                    ..old(self).motion
                },
                ..*old(self)
            }),
            *final(self) == *final(r),
    {
        self.motion.linear_controller.set_output_limit(Some(limit));
        self
    }

    /// Removes this motion's linear output limit.
    pub fn without_linear_output_limit(&mut self) -> (r: &mut Self)
        ensures
            *r == (CartesianDriveFuture {
                motion: Motion {
                    linear_controller: Pid { output_limit: None, ..old(self).motion.linear_controller },
                    ..old(self).motion
                },
                ..*old(self)
            }),
            *final(self) == *final(r),
    {
        self.motion.linear_controller.set_output_limit(None);
        self
    }
}

impl<L: Feedback<i64>> CartesianDriveFuture<L, AngularPid> {
    /// Modifies this motion's angular PID gains.
    pub fn with_angular_gains(&mut self, kp: i64, ki: i64, kd: i64) -> (r: &mut Self)
        ensures
            *r == (CartesianDriveFuture {
                motion: Motion {
                    angular_controller: AngularPid { kp, ki, kd, ..old(self).motion.angular_controller },
                    ..old(self).motion
                },
                ..*old(self)
            }),
            *final(self) == *final(r),
    {
        self.motion.angular_controller.set_gains(kp, ki, kd);
        self
    }

    /// Modifies this motion's angular proportional gain (`kp`).
    pub fn with_angular_kp(&mut self, kp: i64) -> (r: &mut Self)
        ensures
            *r == (CartesianDriveFuture {
                motion: Motion {
                    angular_controller: AngularPid { kp, ..old(self).motion.angular_controller },
                    ..old(self).motion
                },
                ..*old(self)
            }),
            *final(self) == *final(r),
    {
        self.motion.angular_controller.set_kp(kp);
        self
    }

    /// Modifies this motion's angular integral gain (`ki`).
    pub fn with_angular_ki(&mut self, ki: i64) -> (r: &mut Self)
        ensures
            *r == (CartesianDriveFuture {
                motion: Motion {
                    angular_controller: AngularPid { ki, ..old(self).motion.angular_controller },
                    ..old(self).motion
                },
                ..*old(self)
            }),
            *final(self) == *final(r),
    {
        self.motion.angular_controller.set_ki(ki);
        self
    }

    /// Modifies this motion's angular derivative gain (`kd`).
    pub fn with_angular_kd(&mut self, kd: i64) -> (r: &mut Self)
        ensures
            *r == (CartesianDriveFuture {
                motion: Motion {
                    angular_controller: AngularPid { kd, ..old(self).motion.angular_controller },
                    ..old(self).motion
                },
                ..*old(self)
            }),
            *final(self) == *final(r),
    {
        self.motion.angular_controller.set_kd(kd);
        self
    }

    /// Modifies this motion's angular integration range.
    pub fn with_angular_integration_range(&mut self, integration_range: Angle) -> (r: &mut Self)
        ensures
            *r == (CartesianDriveFuture {
                motion: Motion {
                    angular_controller: AngularPid { integration_range: Some(integration_range), ..old(self).motion.angular_controller },
                    ..old(self).motion
                },
                ..*old(self)
            }),
            *final(self) == *final(r),
    {
        self.motion.angular_controller.set_integration_range(Some(integration_range));
        self
    }

    /// Removes this motion's angular integration range.
    pub fn without_angular_integration_range(&mut self) -> (r: &mut Self)
        ensures
            *r == (CartesianDriveFuture {
                motion: Motion {
                    angular_controller: AngularPid { integration_range: None, ..old(self).motion.angular_controller },
                    ..old(self).motion
                },
                ..*old(self)
            }),
            *final(self) == *final(r),
    {
        self.motion.angular_controller.set_integration_range(None);
        self
    }

    /// Modifies this motion's angular output limit.
    pub fn with_angular_output_limit(&mut self, limit: i64) -> (r: &mut Self)
        ensures
            *r == (CartesianDriveFuture {
                motion: Motion {
                    angular_controller: AngularPid { output_limit: Some(limit), ..old(self).motion.angular_controller },
                    ..old(self).motion
                },
                ..*old(self)
            }),
            *final(self) == *final(r),
    {
        self.motion.angular_controller.set_output_limit(Some(limit));
        self
    }

    /// Removes this motion's angular output limit.
    pub fn without_angular_output_limit(&mut self) -> (r: &mut Self)
        ensures
            *r == (CartesianDriveFuture {
                motion: Motion {
                    angular_controller: AngularPid { output_limit: None, ..old(self).motion.angular_controller },
                    ..old(self).motion
                },
                ..*old(self)
            }),
            *final(self) == *final(r),
    {
        self.motion.angular_controller.set_output_limit(None);
        self
    }
}

} // verus!
