//! Settings shared by a series of axis-aligned drives.

use vstd::prelude::*;
use crate::angle::Angle;
use crate::motion::Motion;
use crate::motion::cartesian_drive::{CartesianDriveFuture, Coordinate};
use crate::pid::Feedback;
use crate::tolerances::Tolerances;

verus! {

/// Controllers, tolerances and timeout from which each drive starts afresh.
#[derive(Clone, Copy, Debug)]
pub struct Basic<L, A> {
    /// Linear (forward driving) feedback controller.
    pub linear_controller: L,
    /// Angular (turning) feedback controller.
    pub angular_controller: A,
    /// Linear settling conditions.
    pub linear_tolerances: Tolerances,
    /// Angular settling conditions.
    pub angular_tolerances: Tolerances,
    /// Maximum duration, in milliseconds, a motion may take.
    pub timeout: Option<u64>,
}

/// A fresh, unpolled control loop towards `heading` with the given settings:
/// copies of the controllers and tolerances.
pub open spec fn fresh_motion<L, A>(
    linear_controller: L,
    angular_controller: A,
    linear_tolerances: Tolerances,
    angular_tolerances: Tolerances,
    timeout: Option<u64>,
    heading: Angle,
) -> Motion<L, A> {
    Motion {
        target_heading: heading,
        timeout,
        linear_tolerances: linear_tolerances,
        angular_tolerances: angular_tolerances,
        linear_controller,
        angular_controller,
        state: None,
    }
}

/// Drives along a field axis to a coordinate.
pub trait BasicExt<L, A>: Sized {
    /// The motion that a drive along `coordinate` to `target` at `heading` starts.
    spec fn drive_spec(&self, coordinate: Coordinate, target: i64, heading: Angle) -> CartesianDriveFuture<L, A>;

    /// Drives until the x coordinate reaches `x`, turning to face `heading`.
    fn drive_to_x(&mut self, x: i64, heading: Angle) -> (r: CartesianDriveFuture<L, A>)
        ensures
            r == old(self).drive_spec(Coordinate::X, x, heading),
            *final(self) == *old(self),
    ;

    /// Drives until the y coordinate reaches `y`, turning to face `heading`.
    fn drive_to_y(&mut self, y: i64, heading: Angle) -> (r: CartesianDriveFuture<L, A>)
        ensures
            r == old(self).drive_spec(Coordinate::Y, y, heading),
            *final(self) == *old(self),
    ;
}

impl<L: Feedback<i64> + Copy, A: Feedback<Angle> + Copy> BasicExt<L, A> for Basic<L, A> {
    open spec fn drive_spec(&self, coordinate: Coordinate, target: i64, heading: Angle) -> CartesianDriveFuture<L, A> {
        CartesianDriveFuture {
            target_coordinate: target,
            coordinate,
            motion: fresh_motion(
                self.linear_controller,
                self.angular_controller,
                self.linear_tolerances,
                self.angular_tolerances,
                self.timeout,
                heading,
            ),
        }
    }

    fn drive_to_x(&mut self, x: i64, heading: Angle) -> (r: CartesianDriveFuture<L, A>) {
        CartesianDriveFuture {
            target_coordinate: x,
            coordinate: Coordinate::X,
            motion: Motion {
                target_heading: heading,
                timeout: self.timeout,
                linear_tolerances: self.linear_tolerances,
                angular_tolerances: self.angular_tolerances,
                linear_controller: self.linear_controller,
                angular_controller: self.angular_controller,
                state: None,
            },
        }
    }

    fn drive_to_y(&mut self, y: i64, heading: Angle) -> (r: CartesianDriveFuture<L, A>) {
        CartesianDriveFuture {
            target_coordinate: y,
            coordinate: Coordinate::Y,
            motion: Motion {
                target_heading: heading,
                timeout: self.timeout,
                linear_tolerances: self.linear_tolerances,
                angular_tolerances: self.angular_tolerances,
                linear_controller: self.linear_controller,
                angular_controller: self.angular_controller,
                state: None,
            },
        }
    }
}

} // verus!
