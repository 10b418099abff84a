//! Plane geometry: 2D vectors and the axis-aligned box overlap test used by
//! collision detection. Boxes are given by their center and their full
//! extents; boundary contact (zero-width overlap) does not count.

use vstd::prelude::*;

verus! {

/// A point or extent in the plane, in fixed-point subunits.
#[derive(Clone, Copy, PartialEq, Eq, Structural, Debug)]
pub struct Vec2 {
    pub x: i64,
    pub y: i64,
}

pub open spec fn abs_i(v: int) -> int {
    if v < 0 {
        -v
    } else {
        v
    }
}

/// Two axis-aligned boxes, each given by its center and its full extents,
/// overlap exactly when their projections on both axes intersect with
/// non-zero length; touching at an edge is not an overlap.
pub open spec fn rects_overlap(pa: Vec2, sa: Vec2, pb: Vec2, sb: Vec2) -> bool {
    &&& 2 * abs_i(pa.x - pb.x) < sa.x + sb.x
    &&& 2 * abs_i(pa.y - pb.y) < sa.y + sb.y
}

/// Overlap test between the box centered at `pa` with extents `sa` and the
/// box centered at `pb` with extents `sb`. Strict: edge contact is no overlap.
pub fn boxes_overlap(pa: Vec2, sa: Vec2, pb: Vec2, sb: Vec2) -> (r: bool)
    ensures
        r == rects_overlap(pa, sa, pb, sb),
{
    let dx: i128 = pa.x as i128 - pb.x as i128;
    let dy: i128 = pa.y as i128 - pb.y as i128;
    let adx: i128 = if dx < 0 { -dx } else { dx };
    let ady: i128 = if dy < 0 { -dy } else { dy };
    2 * adx < sa.x as i128 + sb.x as i128 && 2 * ady < sa.y as i128 + sb.y as i128
}

/// `v` clamped to the closed interval `[lo, hi]`.
pub open spec fn clamp_spec(v: int, lo: int, hi: int) -> int {
    if v < lo {
        lo
    } else if v > hi {
        hi
    } else {
        v
    }
}

/// Clamp `v` into `[lo, hi]`.
pub fn clamp_i64(v: i64, lo: i64, hi: i64) -> (r: i64)
    requires
        lo <= hi,
    ensures
        r == clamp_spec(v as int, lo as int, hi as int),
        lo <= r <= hi,
{
    if v < lo {
        lo
    } else if v > hi {
        hi
    } else {
        v
    }
}

} // verus!
