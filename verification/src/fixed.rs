//! Fixed-point scalars.
//!
//! A scalar quantity (a length, a speed, a color channel) is an integer count
//! of micro-units: `UNIT` counts make one unit. Durations are integer counts
//! of microseconds. This module holds the arithmetic the rest of the library
//! needs on such scalars: truncating signed division and an integer square
//! root, each with an exact contract.

use vstd::prelude::*;

verus! {

/// Number of fixed-point steps in one unit (also: microseconds in one second).
pub const UNIT: i64 = 1_000_000;

/// Largest magnitude a coordinate may take, so that differences, squares and
/// long sums of coordinates stay well inside the integer types used here.
pub const COORD_MAX: i64 = 1_000_000_000_000_000;

/// A position in the geometry's native coordinate space, in micro-units.
#[derive(Clone, Copy, Debug, PartialEq, Eq, Structural)]
pub struct Vec3 {
    pub x: i64,
    pub y: i64,
    pub z: i64,
}

impl Vec3 {
    /// All three coordinates are within the representable range.
    pub open spec fn wf(self) -> bool {
        -COORD_MAX <= self.x <= COORD_MAX && -COORD_MAX <= self.y <= COORD_MAX && -COORD_MAX
            <= self.z <= COORD_MAX
    }

    pub fn zero() -> (r: Vec3)
        ensures
            r == (Vec3 { x: 0, y: 0, z: 0 }),
            r.wf(),
    {
        Vec3 { x: 0, y: 0, z: 0 }
    }
}

/// The squared Euclidean distance between two positions.
pub open spec fn dist_sq(a: Vec3, b: Vec3) -> int {
    (a.x - b.x) * (a.x - b.x) + (a.y - b.y) * (a.y - b.y) + (a.z - b.z) * (a.z - b.z)
}

/// A color with channels normalized to [0, UNIT] micro-units.
#[derive(Clone, Copy, Debug, PartialEq, Eq, Structural)]
pub struct Color {
    pub r: u32,
    pub g: u32,
    pub b: u32,
}

impl Color {
    /// Every channel is normalized: at most one unit.
    pub open spec fn wf(self) -> bool {
        self.r <= UNIT && self.g <= UNIT && self.b <= UNIT
    }

    pub fn black() -> (c: Color)
        ensures
            c == (Color { r: 0, g: 0, b: 0 }),
            c.wf(),
    {
        Color { r: 0, g: 0, b: 0 }
    }
}

/// Signed division that truncates toward zero, as a mathematical function.
pub open spec fn div_trunc(a: int, b: int) -> int
    recommends
        b > 0,
{
    if a >= 0 {
        a / b
    } else {
        -((-a) / b)
    }
}

/// `r` is the integer square root of `x`: the largest integer whose square
/// does not exceed `x`.
pub open spec fn is_floor_sqrt(r: int, x: int) -> bool {
    0 <= r && r * r <= x && x < (r + 1) * (r + 1)
}

/// The integer square root of `x`, for `x >= 0`.
pub open spec fn floor_sqrt(x: int) -> int {
    choose|r: int| is_floor_sqrt(r, x)
}

/// Two integer square roots of the same number are equal.
pub proof fn lemma_floor_sqrt_unique(r1: int, r2: int, x: int)
    requires
        is_floor_sqrt(r1, x),
        is_floor_sqrt(r2, x),
    ensures
        r1 == r2,
{
    assert(r1 == r2) by (nonlinear_arith)
        requires
            0 <= r1,
            0 <= r2,
            r1 * r1 <= x,
            x < (r1 + 1) * (r1 + 1),
            r2 * r2 <= x,
            x < (r2 + 1) * (r2 + 1),
    ;
}

/// Integer square root by bisection.
pub fn isqrt(x: u128) -> (r: u64)
    requires
        x < 0x4000_0000_0000_0000_0000_0000_0000_0000,
    ensures
        r * r <= x < (r + 1) * (r + 1),
        r == floor_sqrt(x as int),
{
    let mut lo: u64 = 0;
    let mut hi: u64 = 0x8000_0000_0000_0000;
    assert((hi as int) * (hi as int) == 0x4000_0000_0000_0000_0000_0000_0000_0000) by (nonlinear_arith)
        requires
            hi == 0x8000_0000_0000_0000u64,
    ;
    while hi - lo > 1
        invariant
            lo < hi,
            hi <= 0x8000_0000_0000_0000,
            (lo as int) * (lo as int) <= x,
            x < (hi as int) * (hi as int),
        decreases hi - lo,
    {
        let mid: u64 = lo + (hi - lo) / 2;
        proof {
            assert((mid as int) * (mid as int) <= 0x4000_0000_0000_0000_0000_0000_0000_0000)
                by (nonlinear_arith)
                requires
                    0 <= mid as int <= 0x8000_0000_0000_0000,
            ;
        }
        let sq: u128 = (mid as u128) * (mid as u128);
        if sq <= x {
            lo = mid;
        } else {
            hi = mid;
        }
    }
    proof {
        assert(hi == lo + 1);
        assert(is_floor_sqrt(lo as int, x as int));
        assert(is_floor_sqrt(floor_sqrt(x as int), x as int)) by {
            assert(exists|r: int| is_floor_sqrt(r, x as int));
        }
        lemma_floor_sqrt_unique(lo as int, floor_sqrt(x as int), x as int);
    }
    lo
}

/// Truncating division of a signed total by a positive count.
pub fn div_signed(a: i128, n: u64) -> (r: i128)
    requires
        n > 0,
        a > i128::MIN,
    ensures
        r == div_trunc(a as int, n as int),
{
    if a >= 0 {
        let q: u128 = (a as u128) / (n as u128);
        q as i128
    } else {
        let q: u128 = ((-a) as u128) / (n as u128);
        proof {
            assert((-a) as u128 / (n as u128) <= (-a) as u128) by (nonlinear_arith)
                requires
                    n as u128 >= 1,
            ;
        }
        -(q as i128)
    }
}

} // verus!
