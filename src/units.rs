//! Fixed-point units and the per-tick step arithmetic of a joint.
use vstd::prelude::*;

verus! {

/// Micro-units per unit: micro-radians per radian, microseconds per second.
pub const MICROS: i64 = 1_000_000;

/// Largest magnitude an angle may take; results are saturated to it.
pub const MAX_ANGLE: i64 = 1_000_000_000_000;

/// Largest speed a joint may have, in micro-radians per second.
pub const MAX_SPEED: i64 = 1_000_000_000;

/// Largest time step accepted, in microseconds; longer steps are degenerate.
pub const MAX_ELAPSED: i64 = 1_000_000_000;

/// Gain of the return-to-reference correction.
pub const RETURN_GAIN: i64 = 5;

/// The time step actually used for a raw elapsed time: a negative or
/// out-of-range step counts as zero.
pub open spec fn elapsed_of(raw: int) -> int {
    if 0 <= raw && raw <= MAX_ELAPSED {
        raw
    } else {
        0
    }
}

/// Whether an angle lies in the representable range.
pub open spec fn angle_ok(a: int) -> bool {
    -MAX_ANGLE <= a && a <= MAX_ANGLE
}

/// Whether a speed lies in the accepted range.
pub open spec fn speed_ok(s: int) -> bool {
    0 <= s && s <= MAX_SPEED
}

/// Saturates a value to the representable angle range.
pub open spec fn saturate(a: int) -> int {
    if a > MAX_ANGLE {
        MAX_ANGLE as int
    } else if a < -MAX_ANGLE {
        -MAX_ANGLE
    } else {
        a
    }
}

/// The increment of one manual rotation: `speed * elapsed`, rounded down.
pub open spec fn manual_step(speed: int, dt: int) -> int {
    (speed * dt) / (MICROS as int)
}

/// The product scale of a return correction: micro-units of speed times
/// micro-units of time.
pub open spec fn return_scale() -> int {
    (MICROS as int) * (MICROS as int)
}

/// The magnitude of one return correction:
/// `speed * |deviation| * 5 * elapsed`, rounded up so that a nonzero
/// deviation is always corrected by at least one micro-radian.
pub open spec fn return_step(speed: int, deviation: int, dt: int) -> int {
    (speed * deviation * RETURN_GAIN * dt + return_scale() - 1) / return_scale()
}

/// The angle after one return correction from `v` toward the reference `r`.
pub open spec fn return_target(v: int, r: int, speed: int, dt: int) -> int {
    if v < r {
        saturate(v + return_step(speed, r - v, dt))
    } else {
        saturate(v - return_step(speed, v - r, dt))
    }
}

/// Replaces a degenerate time step by zero.
pub fn sanitize_elapsed(raw: i64) -> (r: i64)
    ensures
        r == elapsed_of(raw as int),
        0 <= r <= MAX_ELAPSED,
{
    if 0 <= raw && raw <= MAX_ELAPSED {
        raw
    } else {
        0
    }
}

/// Saturates a wide value to the representable angle range.
pub fn saturate_angle(a: i128) -> (r: i64)
    ensures
        r == saturate(a as int),
        angle_ok(r as int),
{
    if a > MAX_ANGLE as i128 {
        MAX_ANGLE
    } else if a < -(MAX_ANGLE as i128) {
        -MAX_ANGLE
    } else {
        a as i64
    }
}

/// Computes the increment of one manual rotation.
pub fn manual_increment(speed: i64, dt: i64) -> (r: i64)
    requires
        speed_ok(speed as int),
        0 <= dt <= MAX_ELAPSED,
    ensures
        r == manual_step(speed as int, dt as int),
        0 <= r <= MAX_ANGLE,
{
    proof {
        lemma_manual_step_bounds(speed as int, dt as int);
    }
    let p: i128 = (speed as i128) * (dt as i128);
    (p / (MICROS as i128)) as i64
}

proof fn lemma_manual_step_bounds(speed: int, dt: int)
    requires
        speed_ok(speed),
        0 <= dt <= MAX_ELAPSED,
    ensures
        0 <= speed * dt <= MAX_SPEED * MAX_ELAPSED,
        0 <= manual_step(speed, dt) <= MAX_ANGLE,
{
    assert(0 <= speed * dt <= MAX_SPEED * MAX_ELAPSED) by (nonlinear_arith)
        requires
            0 <= speed <= MAX_SPEED,
            0 <= dt <= MAX_ELAPSED,
    ;
}

/// Computes the angle after one return correction from `v` toward `r`.
pub fn return_toward(v: i64, r: i64, speed: i64, dt: i64) -> (out: i64)
    requires
        angle_ok(v as int),
        angle_ok(r as int),
        speed_ok(speed as int),
        0 <= dt <= MAX_ELAPSED,
    ensures
        out == return_target(v as int, r as int, speed as int, dt as int),
        angle_ok(out as int),
{
    let dev: i128 = if v < r {
        (r as i128) - (v as i128)
    } else {
        (v as i128) - (r as i128)
    };
    proof {
        lemma_return_product_bounds(speed as int, dev as int, dt as int);
    }
    let prod: i128 = (speed as i128) * dev * (RETURN_GAIN as i128) * (dt as i128);
    let scale: i128 = (MICROS as i128) * (MICROS as i128);
    let step: i128 = (prod + scale - 1) / scale;
    if v < r {
        saturate_angle((v as i128) + step)
    } else {
        saturate_angle((v as i128) - step)
    }
}

proof fn lemma_return_product_bounds(speed: int, dev: int, dt: int)
    requires
        speed_ok(speed),
        0 <= dev <= 2 * MAX_ANGLE,
        0 <= dt <= MAX_ELAPSED,
    ensures
        0 <= speed * dev <= MAX_SPEED * (2 * MAX_ANGLE),
        0 <= speed * dev * RETURN_GAIN <= MAX_SPEED * (2 * MAX_ANGLE) * RETURN_GAIN,
        0 <= speed * dev * RETURN_GAIN * dt
            <= MAX_SPEED * (2 * MAX_ANGLE) * RETURN_GAIN * MAX_ELAPSED,
{
    assert(0 <= speed * dev <= MAX_SPEED * (2 * MAX_ANGLE)) by (nonlinear_arith)
        requires
            0 <= speed <= MAX_SPEED,
            0 <= dev <= 2 * MAX_ANGLE,
    ;
    let a = speed * dev;
    assert(0 <= a * RETURN_GAIN <= MAX_SPEED * (2 * MAX_ANGLE) * RETURN_GAIN) by (nonlinear_arith)
        requires
            0 <= a <= MAX_SPEED * (2 * MAX_ANGLE),
    ;
    let b = a * RETURN_GAIN;
    assert(0 <= b * dt <= MAX_SPEED * (2 * MAX_ANGLE) * RETURN_GAIN * MAX_ELAPSED)
        by (nonlinear_arith)
        requires
            0 <= b <= MAX_SPEED * (2 * MAX_ANGLE) * RETURN_GAIN,
            0 <= dt <= MAX_ELAPSED,
    ;
}

} // verus!
