//! Planar points and exact integer square roots.
use vstd::prelude::*;

verus! {

/// Largest magnitude of a coordinate on the field.
pub const COORD_MAX: i64 = 1_073_741_824;

/// A point or displacement in the plane.
#[derive(Clone, Copy, Debug, PartialEq, Eq, Structural)]
pub struct Vec2 {
    pub x: i64,
    pub y: i64,
}

impl Vec2 {
    pub open spec fn in_field(self) -> bool {
        -COORD_MAX <= self.x <= COORD_MAX && -COORD_MAX <= self.y <= COORD_MAX
    }

    pub open spec fn length_squared(self) -> int {
        self.x * self.x + self.y * self.y
    }

    pub fn new(x: i64, y: i64) -> (r: Vec2)
        ensures r == (Vec2 { x, y }),
    {
        Vec2 { x, y }
    }

    pub fn minus(&self, other: &Vec2) -> (r: Vec2)
        requires self.in_field(), other.in_field(),
        ensures r.x == self.x - other.x, r.y == self.y - other.y,
    {
        Vec2 { x: self.x - other.x, y: self.y - other.y }
    }

    /// Length rounded down.
    pub fn length(&self) -> (r: u64)
        requires
            -2 * COORD_MAX <= self.x <= 2 * COORD_MAX,
            -2 * COORD_MAX <= self.y <= 2 * COORD_MAX,
        ensures
            is_isqrt(self.length_squared(), r as int),
            r == floor_sqrt(self.length_squared()),
            r <= 4_294_967_295,
    {
        let x = self.x as i128;
        let y = self.y as i128;
        assert(0 <= x * x <= 4611686018427387904) by (nonlinear_arith) requires -2147483648 <= x <= 2147483648;
        assert(0 <= y * y <= 4611686018427387904) by (nonlinear_arith) requires -2147483648 <= y <= 2147483648;
        isqrt((x * x + y * y) as u64)
    }
}

/// `r` is the square root of `n` rounded down.
pub open spec fn is_isqrt(n: int, r: int) -> bool {
    0 <= r && r * r <= n < (r + 1) * (r + 1)
}

/// The square root of `n` rounded down.
pub open spec fn floor_sqrt(n: int) -> int {
    choose|r: int| is_isqrt(n, r)
}

/// Every natural number has a square root rounded down.
pub proof fn lemma_floor_sqrt(n: int)
    requires n >= 0,
    ensures is_isqrt(n, floor_sqrt(n)),
    decreases n,
{
    if n == 0 {
        assert(is_isqrt(0, 0));
    } else {
        lemma_floor_sqrt(n - 1);
        let r = floor_sqrt(n - 1);
        if (r + 1) * (r + 1) <= n {
            assert(is_isqrt(n, r + 1)) by (nonlinear_arith)
                requires 0 <= r, n - 1 < (r + 1) * (r + 1), (r + 1) * (r + 1) <= n;
        } else {
            assert(is_isqrt(n, r));
        }
    }
}

pub proof fn lemma_isqrt_unique(n: int, r: int)
    requires is_isqrt(n, r),
    ensures floor_sqrt(n) == r,
{
    let q = floor_sqrt(n);
    assert(is_isqrt(n, q));
    if q < r {
        assert(false) by (nonlinear_arith) requires q < r, 0 <= q, r * r <= n, n < (q + 1) * (q + 1);
    } else if r < q {
        assert(false) by (nonlinear_arith) requires r < q, 0 <= r, q * q <= n, n < (r + 1) * (r + 1);
    }
}

/// Square root rounded down, by bisection.
pub fn isqrt(n: u64) -> (r: u64)
    ensures
        is_isqrt(n as int, r as int),
        r == floor_sqrt(n as int),
        r <= 4_294_967_295,
{
    let mut lo: u64 = 0;
    let mut hi: u64 = 4_294_967_296;
    assert(hi * hi > n) by (nonlinear_arith) requires hi == 4_294_967_296u64, n <= u64::MAX;
    while hi - lo > 1
        invariant
            lo < hi <= 4_294_967_296,
            lo * lo <= n,
            hi * hi > n,
        decreases hi - lo,
    {
        let mid = lo + (hi - lo) / 2;
        assert(mid <= 4_294_967_295);
        assert(mid * mid <= 18446744065119617025) by (nonlinear_arith) requires mid <= 4_294_967_295;
        if mid * mid <= n {
            lo = mid;
        } else {
            hi = mid;
        }
    }
    assert((lo + 1) * (lo + 1) > n) by (nonlinear_arith) requires hi == lo + 1, hi * hi > n;
    proof {
        lemma_isqrt_unique(n as int, lo as int);
    }
    lo
}

} // verus!
