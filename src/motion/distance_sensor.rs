//! Driving to a distance read by a rangefinder while holding a heading.

use vstd::prelude::*;
use crate::angle::Angle;
use crate::motion::{Motion, Observation, Step};
use crate::motion::basic::fresh_motion;
use crate::pid::Feedback;
use crate::tolerances::Tolerances;

verus! {

/// Settings from which each rangefinder-relative drive starts afresh.
#[derive(Clone, Copy, Debug)]
pub struct DistanceSensorDriving<L, A> {
    /// Linear (forward driving) feedback controller.
    pub linear_controller: L,
    /// Angular (turning) feedback controller.
    pub angular_controller: A,
    /// Linear settling conditions.
    pub linear_tolerances: Tolerances,
    /// Angular settling conditions.
    pub angular_tolerances: Tolerances,
    /// Maximum duration, in milliseconds, a motion may take.
    pub timeout: Option<u64>,
}

/// The rangefinder and tracking data at one poll.
#[derive(Clone, Copy, Debug, PartialEq, Eq, Structural)]
pub struct RangeReading {
    /// The measured distance in millionth-units, or `None` if the read failed.
    pub distance: Option<i64>,
    pub heading: Angle,
    /// Forward velocity in millionth-units per second.
    pub linear_velocity: i64,
    /// Angular velocity in microdegrees per second.
    pub angular_velocity: i64,
}

/// Drives along the rangefinder's line of sight until it reads a target
/// distance, while turning to a heading.
#[derive(Clone, Copy, Debug)]
pub struct DistanceDriveFuture<L, A> {
    /// Target reading, in millionth-units.
    pub target_distance: i64,
    pub motion: Motion<L, A>,
}

impl<L: Feedback<i64> + Copy, A: Feedback<Angle> + Copy> DistanceSensorDriving<L, A> {
    /// Moves until the rangefinder reads `target_distance`, turning to face
    /// `target_heading`.
    pub fn drive_to_distance(&mut self, target_distance: i64, target_heading: Angle) -> (r:
        DistanceDriveFuture<L, A>)
        ensures
            r == (DistanceDriveFuture {
                target_distance,
                motion: fresh_motion(
                    old(self).linear_controller,
                    old(self).angular_controller,
                    old(self).linear_tolerances,
                    old(self).angular_tolerances,
                    old(self).timeout,
                    target_heading,
                ),
            }),
            *final(self) == *old(self),
    {
        DistanceDriveFuture {
            target_distance,
            motion: Motion {
                target_heading,
                timeout: self.timeout,
                linear_tolerances: self.linear_tolerances,
                angular_tolerances: self.angular_tolerances,
                linear_controller: self.linear_controller,
                angular_controller: self.angular_controller,
                state: None,
            },
        }
    }
}

impl<L: Feedback<i64>, A: Feedback<Angle>> DistanceDriveFuture<L, A> {
    /// The observation that a poll at `now_ms` with `reading` hands the control loop.
    pub open spec fn observation(self, now_ms: u64, reading: RangeReading) -> Observation {
        Observation {
            now_ms,
            linear: match reading.distance {
                Some(d) => Some((d, self.target_distance)),
                None => None,
            },
            heading: reading.heading,
            linear_velocity: reading.linear_velocity,
            angular_velocity: reading.angular_velocity,
        }
    }

    /// Polls the motion with the time, the rangefinder reading and tracking data.
    ///
    /// The linear error is the target distance minus the reading. A failed
    /// read skips the tick's commands (the motion goes on, and may still time
    /// out).
    pub fn poll(&mut self, now_ms: u64, reading: &RangeReading) -> (r: Step)
        ensures
            final(self).target_distance == old(self).target_distance,
            (final(self).motion, r) == old(self).motion.advanced(
                old(self).observation(now_ms, *reading),
            ),
    {
        let linear = match reading.distance {
            Some(d) => Some((d, self.target_distance)),
            None => None,
        };
        let obs = Observation {
            now_ms,
            linear,
            heading: reading.heading,
            linear_velocity: reading.linear_velocity,
            angular_velocity: reading.angular_velocity,
        };
        self.motion.advance(&obs)
    }
}

} // verus!
