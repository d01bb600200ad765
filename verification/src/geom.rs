//! Integer geometry helpers: floor square roots, clamping, and squared
//! distances between points and axis-aligned rectangles.
use vstd::prelude::*;

verus! {

/// `r` is the floor of the square root of `n`.
pub open spec fn is_sqrt_floor(n: int, r: int) -> bool {
    0 <= r && r * r <= n && n < (r + 1) * (r + 1)
}

/// The floor of the square root of a non-negative integer.
pub open spec fn sqrt_floor(n: int) -> int {
    choose|r: int| #[trigger] is_sqrt_floor(n, r)
}

pub proof fn lemma_sqrt_floor_exists(n: nat)
    ensures
        exists|r: int| #[trigger] is_sqrt_floor(n as int, r),
    decreases n,
{
    if n == 0 {
        assert(is_sqrt_floor(0, 0));
    } else {
        lemma_sqrt_floor_exists((n - 1) as nat);
        let r = choose|r: int| #[trigger] is_sqrt_floor(n - 1, r);
        if (r + 1) * (r + 1) <= n {
            assert(is_sqrt_floor(n as int, r + 1)) by (nonlinear_arith)
                requires
                    is_sqrt_floor(n - 1, r),
                    (r + 1) * (r + 1) <= n,
            ;
        } else {
            assert(is_sqrt_floor(n as int, r));
        }
    }
}

pub proof fn lemma_sqrt_floor_unique(n: int, r1: int, r2: int)
    by (nonlinear_arith)
    requires
        is_sqrt_floor(n, r1),
        is_sqrt_floor(n, r2),
    ensures
        r1 == r2,
{
}

/// Any witness of `is_sqrt_floor` is the value `sqrt_floor` denotes.
pub proof fn lemma_sqrt_floor_is(n: int, r: int)
    requires
        0 <= n,
        is_sqrt_floor(n, r),
    ensures
        sqrt_floor(n) == r,
{
    lemma_sqrt_floor_exists(n as nat);
    let rc = choose|rc: int| #[trigger] is_sqrt_floor(n, rc);
    lemma_sqrt_floor_unique(n, r, rc);
}

/// Floor of the square root, by binary search over the candidates.
pub fn isqrt(n: u128) -> (r: u64)
    ensures
        is_sqrt_floor(n as int, r as int),
        r == sqrt_floor(n as int),
{
    let mut lo: u128 = 0;
    let mut hi: u128 = 1u128 << 64;
    proof {
        assert((1u128 << 64) as int == 0x10000000000000000) by (bit_vector);
        assert(0x10000000000000000int * 0x10000000000000000int > u128::MAX as int);
    }
    while lo + 1 < hi
        invariant
            lo < hi,
            hi <= 0x10000000000000000,
            (lo as int) * (lo as int) <= n as int,
            (n as int) < (hi as int) * (hi as int),
        decreases hi - lo,
    {
        let mid: u128 = lo + (hi - lo) / 2;
        proof {
            assert(mid * mid <= u128::MAX) by (nonlinear_arith)
                requires
                    mid < 0x10000000000000000u128,
            ;
        }
        if mid * mid <= n {
            lo = mid;
        } else {
            hi = mid;
        }
    }
    proof {
        lemma_sqrt_floor_is(n as int, lo as int);
    }
    lo as u64
}

/// `v` clamped into `[lo, hi]`.
pub open spec fn clamp_spec(v: int, lo: int, hi: int) -> int {
    if v < lo {
        lo
    } else if v > hi {
        hi
    } else {
        v
    }
}

pub fn clamp_i64(v: i64, lo: i64, hi: i64) -> (r: i64)
    requires
        lo <= hi,
    ensures
        r == clamp_spec(v as int, lo as int, hi as int),
{
    if v < lo {
        lo
    } else if v > hi {
        hi
    } else {
        v
    }
}

/// Squared euclidean distance between two points.
pub open spec fn dist_sq(ax: int, ay: int, bx: int, by: int) -> int {
    (ax - bx) * (ax - bx) + (ay - by) * (ay - by)
}

/// Squared distance from a point to the nearest point of the axis-aligned
/// rectangle with corner `(x, y)`, width `w` and height `h`.
pub open spec fn rect_dist_sq(px: int, py: int, x: int, y: int, w: int, h: int) -> int {
    dist_sq(px, py, clamp_spec(px, x, x + w), clamp_spec(py, y, y + h))
}

/// The nearest-point distance is zero exactly when the point lies in the
/// closed rectangle; in particular any point of the rectangle is within
/// every positive blast radius.
pub proof fn lemma_rect_dist_sq_zero(px: int, py: int, x: int, y: int, w: int, h: int)
    requires
        0 <= w,
        0 <= h,
    ensures
        rect_dist_sq(px, py, x, y, w, h) == 0 <==> (x <= px <= x + w && y <= py <= y + h),
        rect_dist_sq(px, py, x, y, w, h) >= 0,
{
    let cx = clamp_spec(px, x, x + w);
    let cy = clamp_spec(py, y, y + h);
    assert((px - cx) * (px - cx) >= 0) by (nonlinear_arith);
    assert((py - cy) * (py - cy) >= 0) by (nonlinear_arith);
    if px - cx != 0 {
        assert((px - cx) * (px - cx) > 0) by (nonlinear_arith)
            requires
                px - cx != 0,
        ;
    }
    if py - cy != 0 {
        assert((py - cy) * (py - cy) > 0) by (nonlinear_arith)
            requires
                py - cy != 0,
        ;
    }
}

} // verus!
