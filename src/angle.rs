//! Angles as whole millidegrees, with shortest-path wrapping.
use vstd::prelude::*;
use crate::numeric::VALUE_MAX;

verus! {

/// Millidegrees in one full turn.
pub const FULL_TURN: i64 = 360_000;

/// Millidegrees in half a turn.
pub const HALF_TURN: i64 = 180_000;

/// A planar angle, in millidegrees, counterclockwise positive.
#[derive(Clone, Copy, Debug, PartialEq, Eq, Structural)]
pub struct Angle {
    pub millidegrees: i64,
}

/// The representative of `x` modulo a full turn that lies in `(-half, half]`.
pub open spec fn wrap_half(x: int) -> int {
    let r = x % (FULL_TURN as int);
    if r > HALF_TURN as int { r - FULL_TURN as int } else { r }
}

impl Angle {
    pub open spec fn view(self) -> int {
        self.millidegrees as int
    }

    pub fn from_millidegrees(millidegrees: i64) -> (r: Angle)
        ensures r@ == millidegrees,
    {
        Angle { millidegrees }
    }

    pub fn from_degrees(degrees: i64) -> (r: Angle)
        requires -(VALUE_MAX / 1000) <= degrees <= VALUE_MAX / 1000,
        ensures r@ == degrees * 1000,
    {
        Angle { millidegrees: degrees * 1000 }
    }

    /// One gradian is nine tenths of a degree.
    pub fn from_gradians(gradians: i64) -> (r: Angle)
        requires -(VALUE_MAX / 900) <= gradians <= VALUE_MAX / 900,
        ensures r@ == gradians * 900,
    {
        Angle { millidegrees: gradians * 900 }
    }

    pub fn from_turns(turns: i64) -> (r: Angle)
        requires -(VALUE_MAX / FULL_TURN) <= turns <= VALUE_MAX / FULL_TURN,
        ensures r@ == turns as int * FULL_TURN as int,
    {
        Angle { millidegrees: turns * FULL_TURN }
    }

    pub fn as_millidegrees(&self) -> (r: i64)
        ensures r == self@,
    {
        self.millidegrees
    }

    /// The signed difference `self - other`, unwrapped.
    pub fn minus(&self, other: &Angle) -> (r: Angle)
        requires
            -VALUE_MAX <= self@ <= VALUE_MAX,
            -VALUE_MAX <= other@ <= VALUE_MAX,
        ensures r@ == self@ - other@,
    {
        Angle { millidegrees: self.millidegrees - other.millidegrees }
    }

    /// The same direction, expressed in `(-180°, 180°]`.
    pub fn wrapped_half(&self) -> (r: Angle)
        ensures
            r@ == wrap_half(self@),
            -HALF_TURN < r@ <= HALF_TURN,
            (r@ - self@) % (FULL_TURN as int) == 0,
    {
        let m = self.millidegrees % FULL_TURN;
        let m = if m < 0 { m + FULL_TURN } else { m };
        proof {
            lemma_wrap_half(self@);
        }
        if m > HALF_TURN { Angle { millidegrees: m - FULL_TURN } } else { Angle { millidegrees: m } }
    }
}

/// The wrapped value lies in `(-half, half]` and names the same direction.
pub proof fn lemma_wrap_half(x: int)
    ensures
        -HALF_TURN < wrap_half(x) <= HALF_TURN,
        (wrap_half(x) - x) % (FULL_TURN as int) == 0,
{
    let f = FULL_TURN as int;
    let r = x % f;
    let w = wrap_half(x);
    let q = x / f;
    assert(x == f * q + r && 0 <= r < f) by (nonlinear_arith) requires f > 0, r == x % f, q == x / f;
    if w == r {
        assert((w - x) % f == 0) by (nonlinear_arith) requires w - x == f * (-q), f > 0;
    } else {
        assert((w - x) % f == 0) by (nonlinear_arith) requires w - x == f * (-q - 1), f > 0;
    }
}

/// Any angle in `(-half, half]` that names the same direction as `x` is its
/// wrapped value: the wrap gives the true shortest signed angle.
pub proof fn lemma_wrap_half_unique(x: int, y: int)
    requires
        -HALF_TURN < y <= HALF_TURN,
        (y - x) % (FULL_TURN as int) == 0,
    ensures
        y == wrap_half(x),
{
    lemma_wrap_half(x);
    let f = FULL_TURN as int;
    let w = wrap_half(x);
    assert(y - w == f * ((y - x) / f) - f * ((w - x) / f)) by (nonlinear_arith)
        requires f > 0, (y - x) % f == 0, (w - x) % f == 0;
    let k = (y - x) / f - (w - x) / f;
    assert(y - w == f * k) by (nonlinear_arith) requires y - w == f * ((y - x) / f) - f * ((w - x) / f), k == (y - x) / f - (w - x) / f;
    assert(k == 0) by (nonlinear_arith)
        requires y - w == f * k, f == 360_000, -180_000 < y <= 180_000, -180_000 < w <= 180_000;
}

} // verus!
