//! Tolerance-based settling detection for one axis.

use vstd::prelude::*;
use crate::fixed::abs;

verus! {

/// Settling conditions for one axis.
///
/// An absent threshold is always satisfied. With a duration, the axis is
/// settled only once the thresholds have held on every sample for at least
/// that long; a single sample outside them starts the wait over. The start
/// of the current in-tolerance window belongs to the motion that checks the
/// axis, not to these settings, and is handed to [`Tolerances::check`].
#[derive(Clone, Copy, Debug, PartialEq, Eq, Structural)]
pub struct Tolerances {
    /// Largest admitted magnitude of the error.
    pub error_tolerance: Option<i64>,
    /// Largest admitted magnitude of the velocity.
    pub velocity_tolerance: Option<i64>,
    /// Time in milliseconds for which both thresholds must hold.
    pub duration: Option<u64>,
}

/// Whether `value` is within the optional threshold `tolerance`.
pub open spec fn within(tolerance: Option<i64>, value: i64) -> bool {
    match tolerance {
        Some(t) => abs(value as int) <= t as int,
        None => true,
    }
}

/// One sample of an axis: its error, its velocity and the time it was taken.
pub struct Sample {
    pub error: i64,
    pub velocity: i64,
    pub time: u64,
}

impl Tolerances {
    /// Whether an error and a velocity both meet their thresholds.
    pub open spec fn admits(self, error: i64, velocity: i64) -> bool {
        within(self.error_tolerance, error) && within(self.velocity_tolerance, velocity)
    }

    /// The required duration, zero when none is configured.
    pub open spec fn required(self) -> u64 {
        match self.duration {
            Some(d) => d,
            None => 0,
        }
    }

    /// The window after a sample taken at `now`, given the window before it,
    /// and whether the axis is settled.
    pub open spec fn checked(self, window: Option<u64>, error: i64, velocity: i64, now: u64) -> (
        Option<u64>,
        bool,
    ) {
        if self.admits(error, velocity) {
            let start = match window {
                Some(s) => s,
                None => now,
            };
            (Some(start), now >= start && now - start >= self.required())
        } else {
            (None, false)
        }
    }

    /// No thresholds and no duration: every sample settles at once.
    pub fn new() -> (r: Tolerances)
        ensures
            r.error_tolerance is None,
            r.velocity_tolerance is None,
            r.duration is None,
    {
        Tolerances { error_tolerance: None, velocity_tolerance: None, duration: None }
    }

    /// These tolerances with an error threshold.
    pub fn error(self, tolerance: i64) -> (r: Tolerances)
        ensures
            r == (Tolerances { error_tolerance: Some(tolerance), ..self }),
    {
        Tolerances { error_tolerance: Some(tolerance), ..self }
    }

    /// These tolerances with a velocity threshold.
    pub fn velocity(self, tolerance: i64) -> (r: Tolerances)
        ensures
            r == (Tolerances { velocity_tolerance: Some(tolerance), ..self }),
    {
        Tolerances { velocity_tolerance: Some(tolerance), ..self }
    }

    /// These tolerances with a settling duration in milliseconds.
    pub fn duration(self, duration_ms: u64) -> (r: Tolerances)
        ensures
            r == (Tolerances { duration: Some(duration_ms), ..self }),
    {
        Tolerances { duration: Some(duration_ms), ..self }
    }

    /// Feeds one sample taken at `now_ms` and reports whether the axis is
    /// settled. `window` holds the start of the current in-tolerance window:
    /// it opens at the first sample within the thresholds and closes at any
    /// sample outside them.
    pub fn check(&self, window: &mut Option<u64>, error: i64, velocity: i64, now_ms: u64) -> (r:
        bool)
        ensures
            (*final(window), r) == self.checked(*old(window), error, velocity, now_ms),
    {
        let error_ok = match self.error_tolerance {
            Some(t) => (error as i128) <= (t as i128) && -(error as i128) <= (t as i128),
            None => true,
        };
        let velocity_ok = match self.velocity_tolerance {
            Some(t) => (velocity as i128) <= (t as i128) && -(velocity as i128) <= (t as i128),
            None => true,
        };
        if error_ok && velocity_ok {
            let start = match *window {
                Some(s) => s,
                None => now_ms,
            };
            *window = Some(start);
            let required = match self.duration {
                Some(d) => d,
                None => 0,
            };
            now_ms >= start && now_ms - start >= required
        } else {
            *window = None;
            false
        }
    }
}

/// The window after feeding the first `n` samples of `samples` to `t`,
/// starting with no window.
pub open spec fn after_samples(t: Tolerances, samples: Seq<Sample>, n: nat) -> Option<u64>
    decreases n,
{
    if n == 0 {
        None
    } else {
        let s = samples[n - 1];
        t.checked(after_samples(t, samples, (n - 1) as nat), s.error, s.velocity, s.time).0
    }
}

/// Whether feeding sample `n` of `samples` (after the ones before it) reports settled.
pub open spec fn settled_at(t: Tolerances, samples: Seq<Sample>, n: nat) -> bool {
    let s = samples[n as int];
    t.checked(after_samples(t, samples, n), s.error, s.velocity, s.time).1
}

/// An open window started at the time of a sample from which every sample
/// so far has been within tolerance.
proof fn lemma_window_origin(t: Tolerances, samples: Seq<Sample>, n: nat)
    requires
        n <= samples.len(),
    ensures
        after_samples(t, samples, n) matches Some(st) ==> exists|k: int|
            0 <= k < n && #[trigger] samples[k].time == st && forall|j: int|
                k <= j < n ==> t.admits(#[trigger] samples[j].error, samples[j].velocity),
    decreases n,
{
    if n > 0 {
        let m = (n - 1) as nat;
        lemma_window_origin(t, samples, m);
        let s = samples[m as int];
        if t.admits(s.error, s.velocity) {
            match after_samples(t, samples, m) {
                Some(st) => {
                    let k = choose|k: int|
                        0 <= k < m && #[trigger] samples[k].time == st && forall|j: int|
                            k <= j < m ==> t.admits(#[trigger] samples[j].error, samples[j].velocity);
                    assert(forall|j: int| k <= j < n ==> t.admits(#[trigger] samples[j].error, samples[j].velocity));
                },
                None => {
                    assert(samples[m as int].time == s.time);
                },
            }
        }
    }
}

/// An axis reported settled has been within both thresholds on every sample
/// of a window that ends at the reporting sample and spans at least the
/// configured duration; any sample outside the thresholds lies before that
/// window, so it restarts the wait.
pub proof fn lemma_settled_means_held(t: Tolerances, samples: Seq<Sample>, n: nat)
    requires
        n < samples.len(),
        settled_at(t, samples, n),
    ensures
        exists|k: int|
            0 <= k <= n && samples[n as int].time >= #[trigger] samples[k].time + t.required()
                && forall|j: int|
                k <= j <= n ==> t.admits(#[trigger] samples[j].error, samples[j].velocity),
{
    lemma_window_origin(t, samples, n);
    match after_samples(t, samples, n) {
        Some(st) => {
            let k = choose|k: int|
                0 <= k < n && #[trigger] samples[k].time == st && forall|j: int|
                    k <= j < n ==> t.admits(#[trigger] samples[j].error, samples[j].velocity);
            assert(forall|j: int| k <= j <= n ==> t.admits(#[trigger] samples[j].error, samples[j].velocity));
            assert(samples[n as int].time >= samples[k].time + t.required());
        },
        None => {
            assert(forall|j: int| n <= j <= n ==> t.admits(#[trigger] samples[j].error, samples[j].velocity));
            assert(samples[n as int].time >= samples[n as int].time + t.required());
        },
    }
}

} // verus!
