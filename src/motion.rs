//! The pollable control loop shared by every motion.
//!
//! A motion is driven by repeated calls of [`Motion::advance`], each with the
//! time and the freshest sensor values. The first call starts the clock; after
//! that a control tick runs at most every [`TICK_MS`] milliseconds. A tick
//! checks both axes against their tolerances and either finishes the motion,
//! asking once for zero output, or returns new linear and angular commands.

use vstd::prelude::*;
use crate::angle::{Angle, angle_error, angle_error_spec, project, projected};
use crate::fixed::{clamp_i64, saturate};
use crate::pid::Feedback;
use crate::tolerances::Tolerances;

pub mod basic;
pub mod cartesian_drive;
pub mod distance_sensor;

verus! {

/// Milliseconds between two control ticks.
pub const TICK_MS: u64 = 5;

/// The state of a motion that has been polled at least once.
#[derive(Clone, Copy, Debug, PartialEq, Eq, Structural)]
pub struct DriveState {
    /// Time of the first poll.
    pub start_ms: u64,
    /// Time of the previous tick (of the first poll before any tick).
    pub prev_ms: u64,
    /// Start of the linear axis's current in-tolerance window.
    pub linear_window: Option<u64>,
    /// Start of the angular axis's current in-tolerance window.
    pub angular_window: Option<u64>,
    /// Whether the linear axis has settled; never reverts.
    pub linear_settled: bool,
    /// Whether the angular axis has settled; never reverts.
    pub angular_settled: bool,
    /// Whether the motion has stopped.
    pub finished: bool,
}

/// One of the two controlled axes.
#[derive(Clone, Copy, Debug, PartialEq, Eq, Structural)]
pub enum Axis {
    Linear,
    Angular,
}

/// The in-tolerance window of `axis`.
pub open spec fn window_of(s: DriveState, axis: Axis) -> Option<u64> {
    match axis {
        Axis::Linear => s.linear_window,
        Axis::Angular => s.angular_window,
    }
}

/// Whether `axis` has settled.
pub open spec fn settled_of(s: DriveState, axis: Axis) -> bool {
    match axis {
        Axis::Linear => s.linear_settled,
        Axis::Angular => s.angular_settled,
    }
}

/// `state` with the window of `axis` closed, so that the axis must hold its
/// tolerances anew before it can settle.
pub open spec fn window_closed(state: Option<DriveState>, axis: Axis) -> Option<DriveState> {
    match state {
        Some(s) => Some(
            match axis {
                Axis::Linear => DriveState { linear_window: None, ..s },
                Axis::Angular => DriveState { angular_window: None, ..s },
            },
        ),
        None => None,
    }
}

/// What a poll asks of the caller.
#[derive(Clone, Copy, Debug, PartialEq, Eq, Structural)]
pub enum Step {
    /// Nothing to do before the next tick is due.
    Wait,
    /// Send these linear and angular signals to the drivetrain.
    Drive { linear: i64, angular: i64 },
    /// The motion is over: send zero output once.
    Stop,
    /// The motion had already stopped; nothing to do.
    Done,
}

/// What the sensors report at one poll.
#[derive(Clone, Copy, Debug)]
pub struct Observation {
    /// Time of the poll in milliseconds.
    pub now_ms: u64,
    /// The measured and the target value of the linear axis, or `None` when
    /// the linear measurement could not be read.
    pub linear: Option<(i64, i64)>,
    /// The current heading.
    pub heading: Angle,
    /// The forward velocity, in millionth-units per second.
    pub linear_velocity: i64,
    /// The angular velocity, in microdegrees per second.
    pub angular_velocity: i64,
}

/// Whether more than `timeout` milliseconds separate `start` from `now`.
pub open spec fn timed_out(timeout: Option<u64>, start: u64, now: u64) -> bool {
    match timeout {
        Some(t) => now as int - start as int > t as int,
        None => false,
    }
}

/// Whether a tick is due at `now` after one at `prev`.
pub open spec fn due(prev: u64, now: u64) -> bool {
    now as int - prev as int >= TICK_MS as int
}

/// The control loop of one motion: its target heading, settling rules,
/// controllers and progress.
#[derive(Clone, Copy, Debug)]
pub struct Motion<L, A> {
    pub target_heading: Angle,
    /// Longest time, in milliseconds, the motion may run.
    pub timeout: Option<u64>,
    pub linear_tolerances: Tolerances,
    pub angular_tolerances: Tolerances,
    pub linear_controller: L,
    pub angular_controller: A,
    /// `None` until the first poll.
    pub state: Option<DriveState>,
}

impl<L, A> Motion<L, A> {
    /// The settling conditions of `axis`.
    pub open spec fn tolerances_of(self, axis: Axis) -> Tolerances {
        match axis {
            Axis::Linear => self.linear_tolerances,
            Axis::Angular => self.angular_tolerances,
        }
    }

    /// The error and velocity of `axis` at a poll, or `None` when the axis
    /// was not measured.
    pub open spec fn sample_of(self, obs: Observation, axis: Axis) -> Option<(i64, i64)> {
        match axis {
            Axis::Linear => match obs.linear {
                Some((measured, target)) => Some(
                    (clamp_i64(target - measured) as i64, obs.linear_velocity),
                ),
                None => None,
            },
            Axis::Angular => Some(
                (angle_error_spec(self.target_heading, obs.heading) as i64, obs.angular_velocity),
            ),
        }
    }

    /// Whether `axis` was measured within its thresholds at a poll.
    pub open spec fn holds(self, obs: Observation, axis: Axis) -> bool {
        match self.sample_of(obs, axis) {
            Some((e, v)) => self.tolerances_of(axis).admits(e, v),
            None => false,
        }
    }

    /// The window of `axis` after a tick that starts with `window`, and
    /// whether that tick finds the axis settled. An unmeasured axis closes
    /// its window.
    pub open spec fn axis_checked(self, window: Option<u64>, obs: Observation, axis: Axis) -> (
        Option<u64>,
        bool,
    ) {
        match self.sample_of(obs, axis) {
            Some((e, v)) => self.tolerances_of(axis).checked(window, e, v, obs.now_ms),
            None => (None, false),
        }
    }

    /// Whether a poll with `obs` runs a control tick.
    pub open spec fn ticks(self, obs: Observation) -> bool {
        self.state matches Some(s) && !s.finished && due(s.prev_ms, obs.now_ms)
    }

    /// Whether a poll with `obs` runs a tick whose check finds `axis` settled.
    pub open spec fn settles(self, obs: Observation, axis: Axis) -> bool {
        self.ticks(obs) && self.axis_checked(window_of(self.state.unwrap(), axis), obs, axis).1
    }

    /// Closes the in-tolerance window of `axis`, if the motion has started.
    pub fn close_window(&mut self, axis: Axis)
        ensures
            *final(self) == (Motion { state: window_closed(old(self).state, axis), ..*old(self) }),
    {
        if let Some(s) = self.state {
            self.state = Some(
                match axis {
                    Axis::Linear => DriveState { linear_window: None, ..s },
                    Axis::Angular => DriveState { angular_window: None, ..s },
                },
            );
        }
    }
}

impl<L: Feedback<i64>, A: Feedback<Angle>> Motion<L, A> {
    /// The motion after one poll, and what the poll asks of the caller.
    pub open spec fn advanced(self, obs: Observation) -> (Motion<L, A>, Step) {
        let now = obs.now_ms;
        match self.state {
            None => (
                Motion {
                    state: Some(
                        DriveState {
                            start_ms: now,
                            prev_ms: now,
                            linear_window: None,
                            angular_window: None,
                            linear_settled: false,
                            angular_settled: false,
                            finished: false,
                        },
                    ),
                    ..self
                },
                Step::Wait,
            ),
            Some(s) => if s.finished {
                (self, Step::Done)
            } else if !due(s.prev_ms, now) {
                (self, Step::Wait)
            } else {
                let (lw, lok) = self.axis_checked(s.linear_window, obs, Axis::Linear);
                let (aw, aok) = self.axis_checked(s.angular_window, obs, Axis::Angular);
                let ls = s.linear_settled || lok;
                let ang = s.angular_settled || aok;
                let checked = DriveState {
                    linear_window: lw,
                    angular_window: aw,
                    linear_settled: ls,
                    angular_settled: ang,
                    ..s
                };
                if (ls && ang) || timed_out(self.timeout, s.start_ms, now) {
                    (
                        Motion { state: Some(DriveState { finished: true, ..checked }), ..self },
                        Step::Stop,
                    )
                } else {
                    match obs.linear {
                        None => (
                            Motion { state: Some(DriveState { prev_ms: now, ..checked }), ..self },
                            Step::Wait,
                        ),
                        Some((measured, target)) => {
                            let angular_error = angle_error_spec(
                                self.target_heading,
                                obs.heading,
                            ) as i64;
                            let dt = (now - s.prev_ms) as u64;
                            let (lc, raw) = self.linear_controller.updated(measured, target, dt);
                            let (ac, turn) = self.angular_controller.updated(
                                obs.heading,
                                self.target_heading,
                                dt,
                            );
                            (
                                Motion {
                                    linear_controller: lc,
                                    angular_controller: ac,
                                    state: Some(DriveState { prev_ms: now, ..checked }),
                                    ..self
                                },
                                Step::Drive {
                                    linear: clamp_i64(projected(raw, angular_error)) as i64,
                                    angular: turn,
                                },
                            )
                        },
                    }
                }
            },
        }
    }

    /// Polls the motion once.
    ///
    /// The first poll starts the clock with both settling windows closed. A
    /// stop is asked for only when both axes have settled or the timeout has
    /// passed, and only once: every later poll returns [`Step::Done`].
    /// Settled flags, once set, stay set. A tick without a linear measurement
    /// closes the linear window and sends no commands.
    pub fn advance(&mut self, obs: &Observation) -> (r: Step)
        ensures
            (*final(self), r) == old(self).advanced(*obs),
            r is Stop ==> (final(self).state matches Some(s) && s.finished && ((s.linear_settled
                && s.angular_settled) || timed_out(old(self).timeout, s.start_ms, obs.now_ms))),
            (old(self).state matches Some(s) && s.finished) ==> (r is Done && *final(self)
                == *old(self)),
            (old(self).state matches Some(s) && !s.finished && due(s.prev_ms, obs.now_ms)
                && timed_out(old(self).timeout, s.start_ms, obs.now_ms)) ==> r is Stop,
            old(self).state is None ==> (final(self).state matches Some(s)
                && s.linear_window is None && s.angular_window is None),
            forall|axis: Axis|
                #![trigger settled_of(final(self).state.unwrap(), axis)]
                old(self).state is Some ==> (settled_of(final(self).state.unwrap(), axis) <==> (
                settled_of(old(self).state.unwrap(), axis) || old(self).settles(*obs, axis))),
    {
        let now = obs.now_ms;
        let s = match self.state {
            None => {
                self.state = Some(
                    DriveState {
                        start_ms: now,
                        prev_ms: now,
                        linear_window: None,
                        angular_window: None,
                        linear_settled: false,
                        angular_settled: false,
                        finished: false,
                    },
                );
                return Step::Wait;
            },
            Some(s) => s,
        };
        if s.finished {
            return Step::Done;
        }
        if now < s.prev_ms || now - s.prev_ms < TICK_MS {
            return Step::Wait;
        }
        let timed_out = match self.timeout {
            Some(t) => now > s.start_ms && now - s.start_ms > t,
            None => false,
        };
        let mut linear_window = s.linear_window;
        let lok = match obs.linear {
            Some((measured, target)) => {
                let linear_error = saturate(target as i128 - measured as i128);
                self.linear_tolerances.check(
                    &mut linear_window,
                    linear_error,
                    obs.linear_velocity,
                    now,
                )
            },
            None => {
                linear_window = None;
                false
            },
        };
        let angular_error = angle_error(self.target_heading, obs.heading);
        let mut angular_window = s.angular_window;
        let aok = self.angular_tolerances.check(
            &mut angular_window,
            angular_error.micro_degrees,
            obs.angular_velocity,
            now,
        );
        let ls = s.linear_settled || lok;
        let ang = s.angular_settled || aok;
        let checked = DriveState {
            linear_window,
            angular_window,
            linear_settled: ls,
            angular_settled: ang,
            ..s
        };
        if (ls && ang) || timed_out {
            self.state = Some(DriveState { finished: true, ..checked });
            return Step::Stop;
        }
        let (measured, target) = match obs.linear {
            None => {
                self.state = Some(DriveState { prev_ms: now, ..checked });
                return Step::Wait;
            },
            Some(pair) => pair,
        };
        let dt = now - s.prev_ms;
        let raw = self.linear_controller.update(measured, target, dt);
        let turn = self.angular_controller.update(obs.heading, self.target_heading, dt);
        self.state = Some(DriveState { prev_ms: now, ..checked });
        Step::Drive { linear: project(raw, angular_error), angular: turn }
    }
}

/// The motion after the first `n` observations of `obs`, and the steps that
/// those polls returned, in order.
pub open spec fn run<L: Feedback<i64>, A: Feedback<Angle>>(
    m: Motion<L, A>,
    obs: Seq<Observation>,
    n: nat,
) -> (Motion<L, A>, Seq<Step>)
    decreases n,
{
    if n == 0 {
        (m, Seq::empty())
    } else {
        let (before, steps) = run(m, obs, (n - 1) as nat);
        let (after, step) = before.advanced(obs[n - 1]);
        (after, steps.push(step))
    }
}

/// A run yields one step per poll, and a longer run extends a shorter one.
proof fn lemma_run_prefix<L: Feedback<i64>, A: Feedback<Angle>>(
    m: Motion<L, A>,
    obs: Seq<Observation>,
    i: nat,
    n: nat,
)
    requires
        i <= n,
    ensures
        run(m, obs, n).1.len() == n,
        run(m, obs, n).1.subrange(0, i as int) == run(m, obs, i).1,
    decreases n,
{
    if n > 0 {
        if i < n {
            lemma_run_prefix(m, obs, i, (n - 1) as nat);
            let prev = run(m, obs, (n - 1) as nat).1;
            assert(run(m, obs, n).1.subrange(0, i as int) =~= prev.subrange(0, i as int));
        } else {
            lemma_run_prefix(m, obs, (n - 1) as nat, (n - 1) as nat);
            assert(run(m, obs, n).1.subrange(0, i as int) =~= run(m, obs, n).1);
        }
    }
}

/// Once a motion has finished, further polls change nothing and return `Done`.
proof fn lemma_finished_stays<L: Feedback<i64>, A: Feedback<Angle>>(
    m: Motion<L, A>,
    obs: Seq<Observation>,
    i: nat,
    n: nat,
)
    requires
        i <= n,
        run(m, obs, i).0.state matches Some(s) && s.finished,
    ensures
        run(m, obs, n).0 == run(m, obs, i).0,
        forall|j: int| i <= j < n ==> #[trigger] run(m, obs, n).1[j] is Done,
    decreases n,
{
    lemma_run_prefix(m, obs, n, n);
    if n > i {
        lemma_finished_stays(m, obs, i, (n - 1) as nat);
        lemma_run_prefix(m, obs, (n - 1) as nat, (n - 1) as nat);
        let prev = run(m, obs, (n - 1) as nat).1;
        assert forall|j: int| i <= j < n implies #[trigger] run(m, obs, n).1[j] is Done by {
            if j < n - 1 {
                assert(run(m, obs, n).1[j] == prev[j]);
            }
        }
    }
}

/// A motion asks for zero output at most once: every poll after the one
/// that returned `Stop` returns `Done`, so a finish reached by settling and
/// by timeout on the same tick cannot command twice.
pub proof fn lemma_stop_once<L: Feedback<i64>, A: Feedback<Angle>>(
    m: Motion<L, A>,
    obs: Seq<Observation>,
    n: nat,
    i: int,
    j: int,
)
    requires
        0 <= i < j < n,
        run(m, obs, n).1[i] is Stop,
    ensures
        run(m, obs, n).1[j] is Done,
{
    lemma_run_prefix(m, obs, (i + 1) as nat, n);
    lemma_run_prefix(m, obs, i as nat, i as nat);
    let before = run(m, obs, i as nat).0;
    assert(run(m, obs, n).1[i] == run(m, obs, (i + 1) as nat).1[i]);
    assert(before.advanced(obs[i]).1 is Stop);
    lemma_finished_stays(m, obs, (i + 1) as nat, n);
}

/// Polls never change a motion's target heading, timeout or tolerances.
proof fn lemma_config_kept<L: Feedback<i64>, A: Feedback<Angle>>(
    m: Motion<L, A>,
    obs: Seq<Observation>,
    n: nat,
)
    ensures
        run(m, obs, n).0.timeout == m.timeout,
        run(m, obs, n).0.target_heading == m.target_heading,
        run(m, obs, n).0.linear_tolerances == m.linear_tolerances,
        run(m, obs, n).0.angular_tolerances == m.angular_tolerances,
    decreases n,
{
    if n > 0 {
        lemma_config_kept(m, obs, (n - 1) as nat);
    }
}

/// A motion never stops before its timeout unless both axes have settled:
/// at the poll that returns `Stop`, either both settled flags are set or
/// more than `timeout` milliseconds have passed since the first poll.
pub proof fn lemma_stop_cause<L: Feedback<i64>, A: Feedback<Angle>>(
    m: Motion<L, A>,
    obs: Seq<Observation>,
    n: nat,
    i: int,
)
    requires
        0 <= i < n,
        run(m, obs, n).1[i] is Stop,
    ensures
        run(m, obs, (i + 1) as nat).0.state matches Some(s) && ((s.linear_settled
            && s.angular_settled) || timed_out(m.timeout, s.start_ms, obs[i].now_ms)),
{
    lemma_run_prefix(m, obs, (i + 1) as nat, n);
    lemma_run_prefix(m, obs, i as nat, i as nat);
    lemma_config_kept(m, obs, i as nat);
    assert(run(m, obs, n).1[i] == run(m, obs, (i + 1) as nat).1[i]);
}

/// The cosine projection on one tick: with a heading error of ±90° the
/// linear command is zero whatever the linear controller returns; with no
/// heading error it is the controller's signal unchanged.
pub proof fn lemma_tick_projection<L: Feedback<i64>, A: Feedback<Angle>>(
    m: Motion<L, A>,
    obs: Observation,
    linear: i64,
    angular: i64,
)
    requires
        m.advanced(obs).1 == (Step::Drive { linear, angular }),
    ensures
        crate::fixed::abs(angle_error_spec(m.target_heading, obs.heading))
            == crate::angle::QUARTER_TURN ==> linear == 0,
        angle_error_spec(m.target_heading, obs.heading) == 0 ==> (obs.linear matches Some(p)
            && linear == m.linear_controller.updated(
            p.0,
            p.1,
            (obs.now_ms - m.state.unwrap().prev_ms) as u64,
        ).1),
{
    let e = angle_error_spec(m.target_heading, obs.heading);
    crate::angle::lemma_wrap_half_range(m.target_heading.micro_degrees - obs.heading.micro_degrees);
    let p = obs.linear.unwrap();
    let s = m.state.unwrap();
    let raw = m.linear_controller.updated(p.0, p.1, (obs.now_ms - s.prev_ms) as u64).1;
    crate::angle::lemma_projection(raw, e as i64);
}

/// Whether poll `j` of a run from `m` runs a control tick.
pub open spec fn tick_at<L: Feedback<i64>, A: Feedback<Angle>>(
    m: Motion<L, A>,
    obs: Seq<Observation>,
    j: int,
) -> bool {
    run(m, obs, j as nat).0.ticks(obs[j])
}

/// Whether poll `i` of a run from `m` runs a tick that finds `axis` settled.
pub open spec fn settles_at<L: Feedback<i64>, A: Feedback<Angle>>(
    m: Motion<L, A>,
    obs: Seq<Observation>,
    i: int,
    axis: Axis,
) -> bool {
    run(m, obs, i as nat).0.settles(obs[i], axis)
}

/// Poll `k` is a tick, and `axis` was measured within its thresholds on it
/// and on every later tick before poll `n`.
pub open spec fn held_since<L: Feedback<i64>, A: Feedback<Angle>>(
    m: Motion<L, A>,
    obs: Seq<Observation>,
    axis: Axis,
    k: int,
    n: int,
) -> bool {
    0 <= k < n && tick_at(m, obs, k) && forall|j: int|
        k <= j < n && #[trigger] tick_at(m, obs, j) ==> m.holds(obs[j], axis)
}

/// Polls `k` to `i` span at least the settling duration of `axis`, poll `k`
/// is a tick, and `axis` was within its thresholds on every tick among them.
pub open spec fn held_between<L: Feedback<i64>, A: Feedback<Angle>>(
    m: Motion<L, A>,
    obs: Seq<Observation>,
    axis: Axis,
    k: int,
    i: int,
) -> bool {
    &&& 0 <= k <= i < obs.len()
    &&& obs[i].now_ms >= obs[k].now_ms + m.tolerances_of(axis).required()
    &&& tick_at(m, obs, k)
    &&& forall|j: int| k <= j <= i && #[trigger] tick_at(m, obs, j) ==> m.holds(obs[j], axis)
}

/// An open settling window started at a tick from which the axis has held
/// its thresholds on every tick so far.
proof fn lemma_window_held<L: Feedback<i64>, A: Feedback<Angle>>(
    m: Motion<L, A>,
    obs: Seq<Observation>,
    n: nat,
    axis: Axis,
)
    requires
        m.state is None,
        n <= obs.len(),
    ensures
        run(m, obs, n).0.state matches Some(s) ==> (window_of(s, axis) matches Some(w) ==> exists|
            k: int,
        | #[trigger] held_since(m, obs, axis, k, n as int) && obs[k].now_ms == w),
    decreases n,
{
    if n > 0 {
        let p = (n - 1) as nat;
        lemma_window_held(m, obs, p, axis);
        lemma_config_kept(m, obs, p);
        let before = run(m, obs, p).0;
        let o = obs[p as int];
        assert(tick_at(m, obs, p as int) == before.ticks(o));
        if let Some(s) = before.state {
            if before.ticks(o) {
                let (w2, ok) = before.axis_checked(window_of(s, axis), o, axis);
                assert(window_of(run(m, obs, n).0.state.unwrap(), axis) == w2);
                if let Some(w) = w2 {
                    assert(before.sample_of(o, axis) == m.sample_of(o, axis));
                    assert(m.holds(o, axis));
                    match window_of(s, axis) {
                        Some(w0) => {
                            let k = choose|k: int|
                                #[trigger] held_since(m, obs, axis, k, p as int) && obs[k].now_ms
                                    == w0;
                            assert(held_since(m, obs, axis, k, n as int));
                        },
                        None => {
                            assert(held_since(m, obs, axis, p as int, n as int));
                        },
                    }
                }
            } else {
                assert(run(m, obs, n).0 == before);
                if let Some(w) = window_of(s, axis) {
                    let k = choose|k: int|
                        #[trigger] held_since(m, obs, axis, k, p as int) && obs[k].now_ms == w;
                    assert(held_since(m, obs, axis, k, n as int));
                }
            }
        }
    }
}

/// A tick that finds an axis settled ends a run of polls that spans at
/// least the axis's settling duration, starts at a tick, and on every tick
/// of which the axis was within its thresholds: a single tick outside them
/// restarts the wait.
pub proof fn lemma_settle_window_held<L: Feedback<i64>, A: Feedback<Angle>>(
    m: Motion<L, A>,
    obs: Seq<Observation>,
    i: int,
    axis: Axis,
)
    requires
        m.state is None,
        0 <= i < obs.len(),
        settles_at(m, obs, i, axis),
    ensures
        exists|k: int| #[trigger] held_between(m, obs, axis, k, i),
{
    lemma_window_held(m, obs, i as nat, axis);
    lemma_config_kept(m, obs, i as nat);
    let before = run(m, obs, i as nat).0;
    let o = obs[i];
    let s = before.state.unwrap();
    assert(before.sample_of(o, axis) == m.sample_of(o, axis));
    assert(m.holds(o, axis));
    assert(tick_at(m, obs, i) == before.ticks(o));
    match window_of(s, axis) {
        Some(w) => {
            let k = choose|k: int| #[trigger] held_since(m, obs, axis, k, i) && obs[k].now_ms == w;
            assert(held_between(m, obs, axis, k, i));
        },
        None => {
            assert(held_between(m, obs, axis, i, i));
        },
    }
}

/// A settled flag was set by a tick that found the axis settled.
proof fn lemma_settled_origin<L: Feedback<i64>, A: Feedback<Angle>>(
    m: Motion<L, A>,
    obs: Seq<Observation>,
    n: nat,
    axis: Axis,
)
    requires
        m.state is None,
        n <= obs.len(),
    ensures
        run(m, obs, n).0.state matches Some(s) ==> (settled_of(s, axis) ==> exists|i: int|
            0 <= i < n && #[trigger] settles_at(m, obs, i, axis)),
    decreases n,
{
    if n > 0 {
        let p = (n - 1) as nat;
        lemma_settled_origin(m, obs, p, axis);
        let before = run(m, obs, p).0;
        let o = obs[p as int];
        if let Some(s) = before.state {
            if before.ticks(o) {
                if !settled_of(s, axis) && settled_of(run(m, obs, n).0.state.unwrap(), axis) {
                    assert(settles_at(m, obs, p as int, axis));
                }
            } else {
                assert(run(m, obs, n).0 == before);
            }
        }
    }
}

/// An axis reported settled in a motion has been within both of its
/// thresholds on every control tick of a window that spans at least its
/// settling duration and ends at the tick that settled it; any tick outside
/// the thresholds lies before that window.
pub proof fn lemma_settled_axis_held<L: Feedback<i64>, A: Feedback<Angle>>(
    m: Motion<L, A>,
    obs: Seq<Observation>,
    n: nat,
    axis: Axis,
)
    requires
        m.state is None,
        n <= obs.len(),
        run(m, obs, n).0.state matches Some(s) && settled_of(s, axis),
    ensures
        exists|i: int, k: int| 0 <= i < n && #[trigger] held_between(m, obs, axis, k, i),
{
    lemma_settled_origin(m, obs, n, axis);
    let i = choose|i: int| 0 <= i < n && #[trigger] settles_at(m, obs, i, axis);
    lemma_settle_window_held(m, obs, i, axis);
    let k = choose|k: int| #[trigger] held_between(m, obs, axis, k, i);
    assert(held_between(m, obs, axis, k, i));
}

} // verus!
