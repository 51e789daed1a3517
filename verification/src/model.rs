//! The mathematical model of one body and of the integration step.
//!
//! A body's physical state is reduced to the three quantities the integrator
//! reads and writes: the Y translation, the vertical velocity, and the
//! grounded flag. The step function below is the single source of truth for
//! what one simulation step does; the executable integrator is proved to
//! follow it exactly.

use vstd::prelude::*;

verus! {

/// Fixed-point scale: the real number `1.0` is `SCALE` units.
pub const SCALE: i64 = 10_000_000;

/// Gravitational acceleration per frame unit: `9.81 * 0.001` in units.
pub const GRAVITY: i64 = 98_100;

/// Bounce damping factor `0.9`, as the ratio `DAMP_NUM / DAMP_DEN`.
pub const DAMP_NUM: i64 = 9;
/// Denominator of the bounce damping factor.
pub const DAMP_DEN: i64 = 10;

/// Rebound speeds below `0.005` (in units) snap the body to rest.
pub const SNAP_THRESHOLD: i64 = 50_000;

/// Elapsed-time fraction per elapsed millisecond, in units: at 60 frames per
/// second one millisecond is `60 / 1000 = 0.06` of a frame, i.e. `600_000`
/// units.
pub const DELTA_PER_MS: i64 = 600_000;

/// The abstract state of one body: Y translation, velocity, grounded flag.
pub ghost struct Body {
    pub y: int,
    pub v: int,
    pub grounded: bool,
}

/// Clamp an unbounded integer into the representable `i64` range.
pub open spec fn sat64(x: int) -> int {
    if x > i64::MAX {
        i64::MAX as int
    } else if x < i64::MIN {
        i64::MIN as int
    } else {
        x
    }
}

/// Velocity lost to gravity over an elapsed-time fraction `delta` (in units).
/// A zero or negative fraction is a degenerate step and contributes nothing.
pub open spec fn grav_gain(delta: int) -> int {
    if delta <= 0 {
        0
    } else {
        (GRAVITY * delta) / (SCALE as int)
    }
}

/// Rebound velocity after hitting the ground with velocity `v` (`v <= 0` for
/// a falling body): the speed is reflected and damped to nine tenths.
pub open spec fn damped(v: int) -> int {
    ((-v) * DAMP_NUM) / (DAMP_DEN as int)
}

/// A body state the simulation can actually hold: the Y translation is never
/// negative, and a grounded body is pinned at the ground with zero velocity.
pub open spec fn body_wf(s: Body) -> bool {
    &&& 0 <= s.y <= i64::MAX
    &&& i64::MIN <= s.v <= i64::MAX
    &&& (s.grounded ==> s.v == 0 && s.y == 0)
}

/// One integration step over the elapsed-time fraction `delta` (in units).
///
/// A grounded body is left untouched. Otherwise gravity is applied to the
/// velocity first; if the prospective position `y + v` would reach or cross
/// the ground, Y is pinned to `0` and the velocity rebounds damped (snapping
/// to rest below the threshold), else the body moves by its velocity.
pub open spec fn step(s: Body, delta: int) -> Body {
    if s.grounded {
        s
    } else {
        let v1 = sat64(s.v - grav_gain(delta));
        if s.y + v1 <= 0 {
            let vb = damped(v1);
            if -(SNAP_THRESHOLD as int) < vb < SNAP_THRESHOLD {
                Body { y: 0, v: 0, grounded: true }
            } else {
                Body { y: 0, v: vb, grounded: false }
            }
        } else {
            Body { y: sat64(s.y + v1), v: v1, grounded: false }
        }
    }
}

/// Elapsed milliseconds between the previous and the current timestamp; a
/// clock that appears to have gone backwards yields zero.
pub open spec fn elapsed_ms(last: int, now: int) -> int {
    if now >= last {
        now - last
    } else {
        0
    }
}

/// The elapsed-time fraction (in units) for a number of elapsed milliseconds.
pub open spec fn delta_of_ms(ms: int) -> int {
    sat64(DELTA_PER_MS * ms)
}

/// A step never leaves the set of well-formed body states.
pub proof fn lemma_step_preserves_wf(s: Body, delta: int)
    requires
        body_wf(s),
    ensures
        body_wf(step(s, delta)),
{
}

/// Grounded is absorbing: once a body is grounded, a step over any elapsed
/// time, however large, returns the state unchanged — every later query
/// reports the identical transform.
pub proof fn lemma_grounded_is_absorbing(s: Body, delta: int)
    requires
        s.grounded,
    ensures
        step(s, delta) == s,
{
}

/// While a body falls it keeps slowing: a step whose elapsed-time fraction
/// yields any gravity gain at all leaves the velocity strictly more negative
/// unless the body lands, and the Y translation never rises.
pub proof fn lemma_fall_strictly_slows(s: Body, delta: int)
    requires
        body_wf(s),
        !s.grounded,
        s.v <= 0,
        grav_gain(delta) >= 1,
        s.v - grav_gain(delta) >= i64::MIN,
    ensures
        step(s, delta).y <= s.y,
        step(s, delta).y > 0 ==> step(s, delta).v < s.v,
{
}

/// Gravity is exact: a step that leaves the body airborne changes the
/// velocity by exactly the gravity gain of its elapsed-time fraction.
pub proof fn lemma_gravity_exact(s: Body, delta: int)
    requires
        body_wf(s),
        !s.grounded,
        s.v - grav_gain(delta) >= i64::MIN,
        s.y + (s.v - grav_gain(delta)) > 0,
    ensures
        step(s, delta).v == s.v - grav_gain(delta),
        step(s, delta).y == sat64(s.y + (s.v - grav_gain(delta))),
        !step(s, delta).grounded,
{
}

/// One full frame of gravity costs exactly `GRAVITY` units of velocity
/// (`delta = 1.0` makes the velocity more negative by `0.00981`).
pub proof fn lemma_gain_per_frame()
    ensures
        grav_gain(SCALE as int) == GRAVITY,
{
    assert((GRAVITY as int) * (SCALE as int) / (SCALE as int) == GRAVITY) by (nonlinear_arith);
}

/// The landing rule: when the gravity-updated velocity `v1` would carry the
/// body to or below the ground (`y + v1 <= 0`), Y pins to exactly `0` and
/// the velocity rebounds to the damped `-v1 * 0.9`; a rebound below the snap
/// threshold grounds the body with velocity `0`.
pub proof fn lemma_landing(s: Body, delta: int)
    requires
        body_wf(s),
        !s.grounded,
        s.y + sat64(s.v - grav_gain(delta)) <= 0,
    ensures
        step(s, delta).y == 0,
        ({
            let v1 = sat64(s.v - grav_gain(delta));
            let vb = damped(v1);
            &&& vb >= 0
            &&& (vb < SNAP_THRESHOLD ==> step(s, delta).grounded && step(s, delta).v == 0)
            &&& (vb >= SNAP_THRESHOLD ==> !step(s, delta).grounded && step(s, delta).v == vb)
        }),
{
    let v1 = sat64(s.v - grav_gain(delta));
    assert(v1 <= 0);
    assert((-v1) * DAMP_NUM >= 0) by (nonlinear_arith)
        requires
            v1 <= 0,
            DAMP_NUM == 9,
    ;
    assert(damped(v1) >= 0) by (nonlinear_arith)
        requires
            (-v1) * DAMP_NUM >= 0,
            damped(v1) == ((-v1) * DAMP_NUM) / (DAMP_DEN as int),
            DAMP_DEN == 10,
    ;
}

} // verus!
