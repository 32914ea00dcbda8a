//! Angles in microdegrees and their normalisation to the shortest rotation.

use vstd::prelude::*;
use crate::fixed::{abs, clamp_i64, div_trunc, div_toward_zero, saturate, SCALE};

verus! {

/// Microdegrees in one degree.
pub const DEGREE: i64 = 1_000_000;

/// Microdegrees in a quarter turn (90 degrees).
pub const QUARTER_TURN: i64 = 90_000_000;

/// Microdegrees in a half turn (180 degrees).
pub const HALF_TURN: i64 = 180_000_000;

/// Microdegrees in a full turn (360 degrees).
pub const FULL_TURN: i64 = 360_000_000;

/// A planar angle, counted in microdegrees, counter-clockwise positive.
#[derive(Clone, Copy, Debug, PartialEq, Eq, Structural)]
pub struct Angle {
    pub micro_degrees: i64,
}

/// The representative of `a` modulo a full turn in `(-HALF_TURN, HALF_TURN]`.
pub open spec fn wrap_half(a: int) -> int {
    let m = a % (FULL_TURN as int);
    if m > HALF_TURN as int {
        m - FULL_TURN as int
    } else {
        m
    }
}

/// The shortest signed rotation that carries `current` onto `target`.
pub open spec fn angle_error_spec(target: Angle, current: Angle) -> int {
    wrap_half(target.micro_degrees - current.micro_degrees)
}

impl Angle {
    /// The angle of `micro_degrees` microdegrees.
    pub fn from_micro_degrees(micro_degrees: i64) -> (r: Angle)
        ensures
            r.micro_degrees == micro_degrees,
    {
        Angle { micro_degrees }
    }

    /// The angle of `degrees` whole degrees.
    pub fn from_degrees(degrees: i32) -> (r: Angle)
        ensures
            r.micro_degrees == degrees * DEGREE,
    {
        Angle { micro_degrees: degrees as i64 * DEGREE }
    }

    /// This angle normalised to the shortest rotation, in `(-180°, 180°]`.
    pub fn wrapped_half(self) -> (r: Angle)
        ensures
            r.micro_degrees == wrap_half(self.micro_degrees as int),
            -HALF_TURN < r.micro_degrees <= HALF_TURN,
    {
        Angle { micro_degrees: wrap_half_exec(self.micro_degrees as i128) }
    }
}

/// Every wrapped value lies in `(-HALF_TURN, HALF_TURN]` and differs from its
/// argument by a whole number of turns.
pub proof fn lemma_wrap_half_range(a: int)
    ensures
        -(HALF_TURN as int) < wrap_half(a) <= HALF_TURN as int,
        (a - wrap_half(a)) % (FULL_TURN as int) == 0,
{
    let f = FULL_TURN as int;
    vstd::arithmetic::div_mod::lemma_fundamental_div_mod(a, f);
    vstd::arithmetic::div_mod::lemma_mod_bound(a, f);
    let q = a / f;
    if a % f > HALF_TURN as int {
        assert(a - wrap_half(a) == f * q + f) by (nonlinear_arith)
            requires
                a == f * q + a % f,
                wrap_half(a) == a % f - f,
        ;
        vstd::arithmetic::div_mod::lemma_mod_multiples_vanish(q + 1, 0, f);
        assert(f * (q + 1) + 0 == f * q + f) by (nonlinear_arith);
    } else {
        vstd::arithmetic::div_mod::lemma_mod_multiples_vanish(q, 0, f);
    }
}

/// Wraps a difference of two angles; `a` is well inside `i128`.
fn wrap_half_exec(a: i128) -> (r: i64)
    requires
        -0x1_0000_0000_0000_0000 <= a <= 0x1_0000_0000_0000_0000,
    ensures
        r as int == wrap_half(a as int),
        -HALF_TURN < r <= HALF_TURN,
{
    proof {
        lemma_wrap_half_range(a as int);
    }
    // A multiple of a full turn larger than any admitted magnitude of `a`.
    let shift: i128 = FULL_TURN as i128 * 0x1_0000_0000_0000;
    let p: i128 = a + shift;
    let m: i128 = p % (FULL_TURN as i128);
    proof {
        vstd::arithmetic::div_mod::lemma_mod_multiples_vanish(
            0x1_0000_0000_0000,
            a as int,
            FULL_TURN as int,
        );
    }
    if m > HALF_TURN as i128 {
        (m - FULL_TURN as i128) as i64
    } else {
        m as i64
    }
}

/// The wrapped error that turns `current` towards `target` the short way.
pub fn angle_error(target: Angle, current: Angle) -> (r: Angle)
    ensures
        r.micro_degrees == angle_error_spec(target, current),
        -HALF_TURN < r.micro_degrees <= HALF_TURN,
{
    Angle { micro_degrees: wrap_half_exec(target.micro_degrees as i128 - current.micro_degrees as i128) }
}

/// Bhaskara's rational approximation of `SCALE * sin(x)` for `x` in
/// `[0, HALF_TURN]`. It is exact at 0°, 90° and 180° and lies in `[0, SCALE]`
/// (`lemma_bhaskara`); how far it lies from the true sine elsewhere is not
/// stated here, as these specifications have no sine to compare it with.
pub open spec fn bhaskara(x: int) -> int {
    let h = HALF_TURN as int;
    let u = x * (h - x);
    (16 * SCALE * u) / (5 * h * h - 4 * u)
}

/// An approximation of the cosine of an angle in `(-HALF_TURN, HALF_TURN]`,
/// in millionths, built from [`bhaskara`].
pub open spec fn cosine(a: int) -> int {
    let t = abs(a);
    if t <= QUARTER_TURN as int {
        bhaskara(t + QUARTER_TURN as int)
    } else {
        -bhaskara(t - QUARTER_TURN as int)
    }
}

/// `signal` scaled by the approximate cosine of `error`: the part of a
/// forward command that points along the target heading.
pub open spec fn projected(signal: i64, error: i64) -> int {
    div_trunc(signal * cosine(error as int), SCALE as int)
}

/// The approximation stays in `[0, SCALE]` on `[0, HALF_TURN]` and is exact
/// at both ends and in the middle.
proof fn lemma_bhaskara(x: int)
    requires
        0 <= x <= HALF_TURN,
    ensures
        0 <= bhaskara(x) <= SCALE,
        x == 0 ==> bhaskara(x) == 0,
        x == HALF_TURN ==> bhaskara(x) == 0,
        x == QUARTER_TURN ==> bhaskara(x) == SCALE,
{
    let h = HALF_TURN as int;
    let u = x * (h - x);
    assert(0 <= u <= h * h / 4) by (nonlinear_arith)
        requires
            0 <= x <= h,
            h == 180_000_000,
            u == x * (h - x),
    ;
    let num = 16 * SCALE * u;
    let den = 5 * h * h - 4 * u;
    assert(den >= 4 * h * h);
    assert(num <= SCALE * den) by (nonlinear_arith)
        requires
            num == 16 * SCALE * u,
            den == 5 * h * h - 4 * u,
            0 <= u <= h * h / 4,
            h == 180_000_000,
    ;
    vstd::arithmetic::div_mod::lemma_div_pos_is_pos(num, den);
    vstd::arithmetic::div_mod::lemma_div_is_ordered(num, SCALE * den, den);
    vstd::arithmetic::div_mod::lemma_div_by_multiple(SCALE as int, den);
    if x == 0 || x == h {
        assert(u == 0) by (nonlinear_arith)
            requires
                x == 0 || x == h,
                u == x * (h - x),
        ;
        assert(num == 0) by (nonlinear_arith)
            requires
                u == 0,
                num == 16 * SCALE * u,
        ;
        vstd::arithmetic::div_mod::lemma_div_by_multiple(0, den);
    }
    if x == QUARTER_TURN {
        assert(u == 8_100_000_000_000_000) by (nonlinear_arith)
            requires
                x == 90_000_000,
                h == 180_000_000,
                u == x * (h - x),
        ;
        assert(num == SCALE * den) by (nonlinear_arith)
            requires
                u == 8_100_000_000_000_000,
                h == 180_000_000,
                num == 16 * SCALE * u,
                den == 5 * h * h - 4 * u,
        ;
    }
}

/// The approximate cosine lies in `[-SCALE, SCALE]`, is even, is `SCALE` at
/// 0°, zero at ±90° and `-SCALE` at 180°, is non-negative within ±90° and
/// non-positive beyond.
pub proof fn lemma_cosine(a: int)
    requires
        -HALF_TURN < a <= HALF_TURN,
    ensures
        -SCALE <= cosine(a) <= SCALE,
        a == 0 ==> cosine(a) == SCALE,
        abs(a) == QUARTER_TURN ==> cosine(a) == 0,
        a == HALF_TURN ==> cosine(a) == -SCALE,
        abs(a) <= QUARTER_TURN ==> cosine(a) >= 0,
        abs(a) >= QUARTER_TURN ==> cosine(a) <= 0,
        cosine(-a) == cosine(a),
{
    let t = abs(a);
    if t <= QUARTER_TURN {
        lemma_bhaskara(t + QUARTER_TURN);
    } else {
        lemma_bhaskara(t - QUARTER_TURN);
    }
}

/// The cosine projection never enlarges a signal, leaves it whole at 0° of
/// error and removes it at ±90°.
pub proof fn lemma_projection(signal: i64, error: i64)
    requires
        -HALF_TURN < error <= HALF_TURN,
    ensures
        abs(projected(signal, error)) <= abs(signal as int),
        error == 0 ==> projected(signal, error) == signal,
        abs(error as int) == QUARTER_TURN ==> projected(signal, error) == 0,
{
    lemma_cosine(error as int);
    let c = cosine(error as int);
    let p = signal * c;
    assert(abs(p) <= abs(signal as int) * SCALE) by (nonlinear_arith)
        requires
            p == signal * c,
            -SCALE <= c <= SCALE,
    ;
    let n = abs(p);
    vstd::arithmetic::div_mod::lemma_div_is_ordered(n, abs(signal as int) * SCALE, SCALE as int);
    vstd::arithmetic::div_mod::lemma_div_by_multiple(abs(signal as int), SCALE as int);
    vstd::arithmetic::div_mod::lemma_div_pos_is_pos(n, SCALE as int);
    if error == 0 {
        assert(p == signal * SCALE);
        if signal >= 0 {
            vstd::arithmetic::div_mod::lemma_div_by_multiple(signal as int, SCALE as int);
        } else {
            assert(-p == (-signal) * SCALE) by (nonlinear_arith)
                requires
                    p == signal * SCALE,
            ;
            vstd::arithmetic::div_mod::lemma_div_by_multiple(-signal, SCALE as int);
        }
    }
}

/// The approximate cosine of a wrapped angle, in millionths.
fn cosine_exec(a: i64) -> (r: i64)
    requires
        -HALF_TURN < a <= HALF_TURN,
    ensures
        r == cosine(a as int),
{
    proof {
        lemma_cosine(a as int);
    }
    let t: i64 = if a >= 0 {
        a
    } else {
        -a
    };
    if t <= QUARTER_TURN {
        bhaskara_exec(t + QUARTER_TURN)
    } else {
        -bhaskara_exec(t - QUARTER_TURN)
    }
}

fn bhaskara_exec(x: i64) -> (r: i64)
    requires
        0 <= x <= HALF_TURN,
    ensures
        r == bhaskara(x as int),
{
    proof {
        lemma_bhaskara(x as int);
    }
    let h: i128 = HALF_TURN as i128;
    let xx: i128 = x as i128;
    assert(0 <= xx * (h - xx) <= h * h) by (nonlinear_arith)
        requires
            0 <= xx <= h,
            h == 180_000_000,
    ;
    let u: i128 = xx * (h - xx);
    assert(16 * 1_000_000 * u <= 16 * 1_000_000 * (h * h)) by (nonlinear_arith)
        requires
            0 <= u <= h * h,
    ;
    let num: i128 = 16 * SCALE as i128 * u;
    let den: i128 = 5 * h * h - 4 * u;
    (num / den) as i64
}

/// Scales a forward signal by the approximate cosine of the heading error,
/// saturating at the bounds of `i64`.
pub fn project(signal: i64, error: Angle) -> (r: i64)
    requires
        -HALF_TURN < error.micro_degrees <= HALF_TURN,
    ensures
        r == clamp_i64(projected(signal, error.micro_degrees)),
{
    proof {
        lemma_cosine(error.micro_degrees as int);
        lemma_projection(signal, error.micro_degrees);
    }
    let c = cosine_exec(error.micro_degrees);
    assert(abs(signal as int * c as int) <= 0x8000_0000_0000_0000int * 1_000_000) by (nonlinear_arith)
        requires
            -SCALE <= c <= SCALE,
            -0x8000_0000_0000_0000 <= signal <= 0x7fff_ffff_ffff_ffff,
    ;
    let p: i128 = signal as i128 * c as i128;
    let q = div_toward_zero(p, SCALE as i128);
    saturate(q)
}

} // verus!
