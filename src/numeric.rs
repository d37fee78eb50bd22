//! Fixed-point arithmetic shared by the control loops.
use vstd::prelude::*;

verus! {

/// Gains are stored in thousandths: a gain of `1500` stands for 1.5.
pub const GAIN_SCALE: i64 = 1000;

/// Largest magnitude of a measurement, setpoint or position coordinate.
pub const VALUE_MAX: i64 = 1_099_511_627_776;

/// Largest magnitude of a gain, in thousandths.
pub const GAIN_MAX: i64 = 1_048_576;

/// Largest magnitude of a throttle or steering signal: half the range of `i64`,
/// so that their sum and difference still fit.
pub const DRIVE_MAX: i64 = 4_611_686_018_427_387_903;

/// Largest timestep, in milliseconds, that a loop accepts.
pub const DT_MAX: u64 = 1_048_576;

pub open spec fn abs(x: int) -> int {
    if x < 0 { -x } else { x }
}

/// Division rounding toward zero, as the machine does it.
pub open spec fn div_trunc(x: int, y: int) -> int {
    if x >= 0 { x / y } else { -((-x) / y) }
}

/// `x` held to the range of `i64`.
pub open spec fn sat(x: int) -> int {
    if x > i64::MAX { i64::MAX as int } else if x < i64::MIN { i64::MIN as int } else { x }
}

/// `x` held to `[-limit, limit]`.
pub open spec fn clamp_sym(x: int, limit: int) -> int {
    if x > limit { limit } else if x < -limit { -limit } else { x }
}

/// -1, 0 or 1 by the sign of `x`.
pub open spec fn sign(x: int) -> int {
    if x > 0 { 1 } else if x < 0 { -1 } else { 0 }
}

pub fn abs_i64(x: i64) -> (r: i64)
    requires x > i64::MIN,
    ensures r == abs(x as int),
{
    if x < 0 { -x } else { x }
}

/// Truncating division of a wide value by a positive divisor.
pub fn div_trunc_i128(x: i128, y: i128) -> (r: i128)
    requires y > 0,
    ensures r == div_trunc(x as int, y as int),
{
    x / y
}

/// Saturating narrowing of a wide value to `i64`.
pub fn sat_i64(x: i128) -> (r: i64)
    ensures r == sat(x as int),
{
    if x > i64::MAX as i128 {
        i64::MAX
    } else if x < i64::MIN as i128 {
        i64::MIN
    } else {
        x as i64
    }
}

/// Clamps `x` to `[-limit, limit]`.
pub fn clamp_i64(x: i64, limit: i64) -> (r: i64)
    requires limit >= 0,
    ensures
        r == clamp_sym(x as int, limit as int),
        -limit <= r <= limit,
{
    if x > limit {
        limit
    } else if x < -limit {
        -limit
    } else {
        x
    }
}

pub proof fn lemma_div_trunc_bound(x: int, y: int, b: int)
    requires y > 0, -b <= x <= b,
    ensures -b <= div_trunc(x, y) <= b,
{
    if x >= 0 {
        assert(x / y <= x) by (nonlinear_arith) requires x >= 0, y > 0;
        assert(x / y >= 0) by (nonlinear_arith) requires x >= 0, y > 0;
    } else {
        assert((-x) / y <= -x) by (nonlinear_arith) requires -x >= 0, y > 0;
        assert((-x) / y >= 0) by (nonlinear_arith) requires -x >= 0, y > 0;
    }
}

/// Dividing by `l` something at most `l * m` in magnitude gives at most `m`.
pub proof fn lemma_div_trunc_scaled(x: int, l: int, m: int)
    requires l > 0, m >= 0, -(l * m) <= x <= l * m,
    ensures -m <= div_trunc(x, l) <= m,
{
    if x >= 0 {
        assert(x / l <= m) by (nonlinear_arith) requires 0 <= x <= l * m, l > 0;
        assert(x / l >= 0) by (nonlinear_arith) requires x >= 0, l > 0;
    } else {
        assert((-x) / l <= m) by (nonlinear_arith) requires 0 <= -x <= l * m, l > 0;
        assert((-x) / l >= 0) by (nonlinear_arith) requires -x >= 0, l > 0;
    }
}

} // verus!
