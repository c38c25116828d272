//! Integer plane geometry for the match engine.
//!
//! Positions on the pitch are pairs of integer field units.  Distances are
//! exact integer square roots of the squared Euclidean distance, so every
//! spatial rule of the engine can be stated and proved without rounding
//! surprises.

use vstd::prelude::*;

verus! {

/// Positions and offsets never leave this band, which keeps every squared
/// distance comfortably inside `i64`.
pub const COORD_LIMIT: i64 = 1_000_000;

/// A point or offset on the pitch plane, in integer field units.
#[derive(Clone, Copy, Debug, PartialEq, Eq, Structural)]
pub struct Vec2 {
    pub x: i64,
    pub y: i64,
}

/// `v` lies inside the coordinate band accepted by the engine.
pub open spec fn in_bounds(v: Vec2) -> bool {
    -COORD_LIMIT <= v.x <= COORD_LIMIT && -COORD_LIMIT <= v.y <= COORD_LIMIT
}

/// `v` lies inside the playing band: far tighter than the coordinate
/// band, so that sums of a position and a velocity stay in bounds.
pub open spec fn in_play_bounds(v: Vec2) -> bool {
    -100_000 <= v.x <= 100_000 && -100_000 <= v.y <= 100_000
}

/// A per-tick velocity is a small offset.
pub open spec fn vel_bounds(v: Vec2) -> bool {
    -1000 <= v.x <= 1000 && -1000 <= v.y <= 1000
}

/// Squared Euclidean distance between `a` and `b`.
pub open spec fn dist_sq(a: Vec2, b: Vec2) -> int {
    (a.x - b.x) * (a.x - b.x) + (a.y - b.y) * (a.y - b.y)
}

impl Vec2 {
    pub fn new(x: i64, y: i64) -> (v: Vec2)
        ensures
            v.x == x,
            v.y == y,
    {
        Vec2 { x, y }
    }

    /// Component-wise sum.
    pub fn add(self, other: Vec2) -> (v: Vec2)
        requires
            in_bounds(self),
            in_bounds(other),
        ensures
            v.x == self.x + other.x,
            v.y == self.y + other.y,
    {
        Vec2 { x: self.x + other.x, y: self.y + other.y }
    }

    /// Component-wise difference.
    pub fn sub(self, other: Vec2) -> (v: Vec2)
        requires
            in_bounds(self),
            in_bounds(other),
        ensures
            v.x == self.x - other.x,
            v.y == self.y - other.y,
    {
        Vec2 { x: self.x - other.x, y: self.y - other.y }
    }
}

/// Squared distance is symmetric in its arguments.
pub proof fn lemma_dist_sq_symmetric(a: Vec2, b: Vec2)
    ensures
        dist_sq(a, b) == dist_sq(b, a),
{
    assert((a.x - b.x) * (a.x - b.x) == (b.x - a.x) * (b.x - a.x)) by (nonlinear_arith);
    assert((a.y - b.y) * (a.y - b.y) == (b.y - a.y) * (b.y - a.y)) by (nonlinear_arith);
}

/// Squared distance is never negative.
pub proof fn lemma_dist_sq_nonneg(a: Vec2, b: Vec2)
    ensures
        dist_sq(a, b) >= 0,
{
    assert((a.x - b.x) * (a.x - b.x) >= 0) by (nonlinear_arith);
    assert((a.y - b.y) * (a.y - b.y) >= 0) by (nonlinear_arith);
}

/// The integer square root: the largest `r` with `r * r <= n`.
pub open spec fn isqrt_spec(n: nat) -> nat
    decreases n,
{
    if n == 0 {
        0
    } else {
        let r = isqrt_spec((n - 1) as nat);
        if (r + 1) * (r + 1) <= n {
            r + 1
        } else {
            r
        }
    }
}

/// `isqrt_spec(n)` is squeezed between the two neighbouring squares.
pub proof fn lemma_isqrt_bounds(n: nat)
    ensures
        isqrt_spec(n) * isqrt_spec(n) <= n,
        n < (isqrt_spec(n) + 1) * (isqrt_spec(n) + 1),
    decreases n,
{
    if n == 0 {
        assert(isqrt_spec(0) == 0);
        assert(n < (isqrt_spec(n) + 1) * (isqrt_spec(n) + 1)) by (nonlinear_arith)
            requires
                n == 0,
                isqrt_spec(n) == 0,
        ;
    } else {
        lemma_isqrt_bounds((n - 1) as nat);
        let r = isqrt_spec((n - 1) as nat);
        if (r + 1) * (r + 1) <= n {
            assert(isqrt_spec(n) == r + 1);
            assert(n < (r + 2) * (r + 2)) by (nonlinear_arith)
                requires
                    n >= 1,
                    n - 1 < (r + 1) * (r + 1),
                    (r + 1) * (r + 1) <= n,
            ;
        } else {
            assert(isqrt_spec(n) == r);
        }
    }
}

/// Any `r` squeezed between the neighbouring squares of `n` is the integer
/// square root of `n`.
pub proof fn lemma_isqrt_unique(n: nat, r: nat)
    requires
        r * r <= n,
        n < (r + 1) * (r + 1),
    ensures
        r == isqrt_spec(n),
{
    lemma_isqrt_bounds(n);
    let s = isqrt_spec(n);
    if r < s {
        assert((r + 1) * (r + 1) <= s * s) by (nonlinear_arith)
            requires
                r + 1 <= s,
        ;
    }
    if s < r {
        assert((s + 1) * (s + 1) <= r * r) by (nonlinear_arith)
            requires
                s + 1 <= r,
        ;
    }
}

/// Integer square root by bisection.
pub fn isqrt(n: u64) -> (r: u64)
    requires
        n <= 0x4000_0000_0000_0000,
    ensures
        r == isqrt_spec(n as nat),
{
    let mut lo: u64 = 0;
    let mut hi: u64 = 0x8000_0000;
    proof {
        assert((0x8000_0000u64 + 1) * (0x8000_0000u64 + 1) > 0x4000_0000_0000_0000u64)
            by (nonlinear_arith);
    }
    while lo < hi
        invariant
            lo <= hi <= 0x8000_0000,
            lo * lo <= n,
            n < (hi + 1) * (hi + 1),
        decreases hi - lo,
    {
        let mid: u64 = lo + (hi - lo + 1) / 2;
        proof {
            assert(mid * mid <= 0x8000_0000u64 * 0x8000_0000u64) by (nonlinear_arith)
                requires
                    mid <= 0x8000_0000u64,
            ;
        }
        if mid * mid <= n {
            lo = mid;
        } else {
            hi = mid - 1;
        }
    }
    proof {
        lemma_isqrt_unique(n as nat, lo as nat);
    }
    lo
}

/// The exact distance between two points: the integer square root of the
/// squared Euclidean distance.
pub open spec fn distance_spec(a: Vec2, b: Vec2) -> nat {
    isqrt_spec(dist_sq(a, b) as nat)
}

/// The squared distance of two in-bounds points fits well inside `u64`.
pub proof fn lemma_dist_sq_bound(a: Vec2, b: Vec2)
    requires
        in_bounds(a),
        in_bounds(b),
    ensures
        0 <= dist_sq(a, b) <= 8_000_000_000_000,
{
    assert((a.x - b.x) * (a.x - b.x) <= 4_000_000_000_000 && (a.x - b.x) * (a.x - b.x) >= 0)
        by (nonlinear_arith)
        requires
            -2_000_000 <= a.x - b.x <= 2_000_000,
    ;
    assert((a.y - b.y) * (a.y - b.y) <= 4_000_000_000_000 && (a.y - b.y) * (a.y - b.y) >= 0)
        by (nonlinear_arith)
        requires
            -2_000_000 <= a.y - b.y <= 2_000_000,
    ;
}

/// The distance of two in-bounds points stays far below the coordinate
/// band.
pub proof fn lemma_distance_bound(a: Vec2, b: Vec2)
    requires
        in_bounds(a),
        in_bounds(b),
    ensures
        distance_spec(a, b) <= 3_000_000,
{
    lemma_dist_sq_bound(a, b);
    let n = dist_sq(a, b) as nat;
    lemma_isqrt_bounds(n);
    let r = isqrt_spec(n);
    if r > 3_000_000 {
        assert(r * r > 8_000_000_000_000) by (nonlinear_arith)
            requires
                r > 3_000_000,
        ;
    }
}

/// Exact distance between two in-bounds points.
pub fn distance(a: Vec2, b: Vec2) -> (d: u64)
    requires
        in_bounds(a),
        in_bounds(b),
    ensures
        d == distance_spec(a, b),
{
    let sq = dist_sq_exec(a, b);
    proof {
        lemma_dist_sq_bound(a, b);
    }
    isqrt(sq)
}

/// Distance is symmetric in its arguments.
pub proof fn lemma_distance_symmetric(a: Vec2, b: Vec2)
    ensures
        distance_spec(a, b) == distance_spec(b, a),
{
    lemma_dist_sq_symmetric(a, b);
}

/// Exact squared distance between two in-bounds points.
pub fn dist_sq_exec(a: Vec2, b: Vec2) -> (d: u64)
    requires
        in_bounds(a),
        in_bounds(b),
    ensures
        d == dist_sq(a, b),
{
    let dx: i64 = a.x - b.x;
    let dy: i64 = a.y - b.y;
    proof {
        lemma_dist_sq_nonneg(a, b);
        assert(dx * dx <= 4_000_000_000_000i64 && dx * dx >= 0) by (nonlinear_arith)
            requires -2_000_000 <= dx <= 2_000_000;
        assert(dy * dy <= 4_000_000_000_000i64 && dy * dy >= 0) by (nonlinear_arith)
            requires -2_000_000 <= dy <= 2_000_000;
    }
    (dx * dx) as u64 + (dy * dy) as u64
}

/// `v` clamped into the band `-cap ..= cap`.
pub open spec fn clamp_spec(v: int, cap: int) -> int {
    if v > cap {
        cap
    } else if v < -cap {
        -cap
    } else {
        v
    }
}

/// The angle between `v` and `w` has cosine strictly above
/// `threshold_milli / 1000`.  Stated over squares so that it is exact in
/// integers; degenerate (zero) vectors are never "aligned".
pub open spec fn aligned_spec(v: Vec2, w: Vec2, threshold_milli: u32) -> bool {
    let dot = v.x * w.x + v.y * w.y;
    let vv = v.x * v.x + v.y * v.y;
    let ww = w.x * w.x + w.y * w.y;
    dot > 0 && 1_000_000 * dot * dot > threshold_milli * threshold_milli * vv * ww
}

/// Products of coordinate terms stay far inside `i128`.
pub proof fn lemma_alignment_products_bounded(vx: int, vy: int, wx: int, wy: int, t: int)
    requires
        -2_000_000 <= vx <= 2_000_000,
        -2_000_000 <= vy <= 2_000_000,
        -2_000_000 <= wx <= 2_000_000,
        -2_000_000 <= wy <= 2_000_000,
        0 <= t <= 1000,
    ensures
        -4_000_000_000_000 <= vx * wx <= 4_000_000_000_000,
        -4_000_000_000_000 <= vy * wy <= 4_000_000_000_000,
        0 <= vx * vx <= 4_000_000_000_000,
        0 <= vy * vy <= 4_000_000_000_000,
        0 <= wx * wx <= 4_000_000_000_000,
        0 <= wy * wy <= 4_000_000_000_000,
        -8_000_000_000_000_000_000 <= 1_000_000 * (vx * wx + vy * wy)
            <= 8_000_000_000_000_000_000,
        -0x1000_0000_0000_0000_0000_0000_0000_0000 <= (1_000_000 * (vx * wx + vy * wy)) * (vx * wx
            + vy * wy) <= 0x1000_0000_0000_0000_0000_0000_0000_0000,
        0 <= t * t <= 1_000_000,
        0 <= (t * t) * (vx * vx + vy * vy) <= 8_000_000_000_000_000_000,
        0 <= ((t * t) * (vx * vx + vy * vy)) * (wx * wx + wy * wy)
            <= 0x1000_0000_0000_0000_0000_0000_0000_0000,
{
    assert({
        &&& -4_000_000_000_000 <= vx * wx <= 4_000_000_000_000
        &&& -4_000_000_000_000 <= vy * wy <= 4_000_000_000_000
        &&& 0 <= vx * vx <= 4_000_000_000_000
        &&& 0 <= vy * vy <= 4_000_000_000_000
        &&& 0 <= wx * wx <= 4_000_000_000_000
        &&& 0 <= wy * wy <= 4_000_000_000_000
        &&& -8_000_000_000_000_000_000 <= 1_000_000 * (vx * wx + vy * wy)
            <= 8_000_000_000_000_000_000
        &&& -0x1000_0000_0000_0000_0000_0000_0000_0000 <= (1_000_000 * (vx * wx + vy * wy)) * (vx
            * wx + vy * wy) <= 0x1000_0000_0000_0000_0000_0000_0000_0000
        &&& 0 <= t * t <= 1_000_000
        &&& 0 <= (t * t) * (vx * vx + vy * vy) <= 8_000_000_000_000_000_000
        &&& 0 <= ((t * t) * (vx * vx + vy * vy)) * (wx * wx + wy * wy)
            <= 0x1000_0000_0000_0000_0000_0000_0000_0000
    }) by (nonlinear_arith)
        requires
            -2_000_000 <= vx <= 2_000_000,
            -2_000_000 <= vy <= 2_000_000,
            -2_000_000 <= wx <= 2_000_000,
            -2_000_000 <= wy <= 2_000_000,
            0 <= t <= 1000,
    ;
}

/// Exec mirror of [`aligned_spec`].
pub fn cos_above(v: Vec2, w: Vec2, threshold_milli: u32) -> (r: bool)
    requires
        -2_000_000 <= v.x <= 2_000_000,
        -2_000_000 <= v.y <= 2_000_000,
        -2_000_000 <= w.x <= 2_000_000,
        -2_000_000 <= w.y <= 2_000_000,
        threshold_milli <= 1000,
    ensures
        r == aligned_spec(v, w, threshold_milli),
{
    let vx: i128 = v.x as i128;
    let vy: i128 = v.y as i128;
    let wx: i128 = w.x as i128;
    let wy: i128 = w.y as i128;
    let t: i128 = threshold_milli as i128;
    proof {
        lemma_alignment_products_bounded(vx as int, vy as int, wx as int, wy as int, t as int);
    }
    let dot: i128 = vx * wx + vy * wy;
    let vv: i128 = vx * vx + vy * vy;
    let ww: i128 = wx * wx + wy * wy;
    dot > 0 && (1_000_000 * dot) * dot > ((t * t) * vv) * ww
}

} // verus!
