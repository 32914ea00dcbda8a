//! Closed-loop motion control for a differential-drive robot.
//!
//! All physical quantities are fixed-point integers so that the control
//! logic can be stated and proved exactly:
//! - lengths, velocities, gains and output signals count millionths of a
//!   unit (`1.0` is `1_000_000`);
//! - angles count microdegrees (a full turn is `360_000_000`);
//! - time counts milliseconds.

pub mod angle;
pub mod color_sort;
pub mod fixed;
pub mod image;
pub mod intake;
pub mod motion;
pub mod pid;
pub mod tolerances;
