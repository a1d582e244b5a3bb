//! Geometry primitive: overlap of two scaled axis-aligned boxes.
//!
//! A box is given by its centre and its full extent. The test compares
//! doubled coordinates, so halving the extents loses nothing; every
//! edge comparison is strict, and a degenerate box of zero or negative
//! extent overlaps nothing.

use vstd::prelude::*;

verus! {

/// Bound on box centre coordinates accepted by the overlap test.
pub const GEOM_POS_LIMIT: i64 = 4_000_000_000_000;

/// Bound on box extents accepted by the overlap test.
pub const GEOM_SIZE_LIMIT: i64 = 2_000_000_000;

/// Overlap of the box centred at `(ax, ay)` with full extent
/// `(aw, ah)` and the box centred at `(ox, oy)` with full extent
/// `(ow, oh)`: strict interval overlap on both axes, and false for a
/// degenerate box.
pub open spec fn boxes_overlap(
    ax: int,
    ay: int,
    aw: int,
    ah: int,
    ox: int,
    oy: int,
    ow: int,
    oh: int,
) -> bool {
    &&& aw > 0
    &&& ah > 0
    &&& ow > 0
    &&& oh > 0
    &&& 2 * ax - aw < 2 * ox + ow
    &&& 2 * ax + aw > 2 * ox - ow
    &&& 2 * ay - ah < 2 * oy + oh
    &&& 2 * ay + ah > 2 * oy - oh
}

/// Whether the two boxes overlap. Pure predicate; no side effects.
pub fn rects_overlap(
    ax: i64,
    ay: i64,
    aw: i64,
    ah: i64,
    ox: i64,
    oy: i64,
    ow: i64,
    oh: i64,
) -> (r: bool)
    requires
        -GEOM_POS_LIMIT <= ax <= GEOM_POS_LIMIT,
        -GEOM_POS_LIMIT <= ay <= GEOM_POS_LIMIT,
        -GEOM_POS_LIMIT <= ox <= GEOM_POS_LIMIT,
        -GEOM_POS_LIMIT <= oy <= GEOM_POS_LIMIT,
        -GEOM_SIZE_LIMIT <= aw <= GEOM_SIZE_LIMIT,
        -GEOM_SIZE_LIMIT <= ah <= GEOM_SIZE_LIMIT,
        -GEOM_SIZE_LIMIT <= ow <= GEOM_SIZE_LIMIT,
        -GEOM_SIZE_LIMIT <= oh <= GEOM_SIZE_LIMIT,
    ensures
        r == boxes_overlap(ax as int, ay as int, aw as int, ah as int, ox as int, oy as int,
            ow as int, oh as int),
{
    aw > 0 && ah > 0 && ow > 0 && oh > 0 && 2 * ax - aw < 2 * ox + ow && 2 * ax + aw > 2 * ox
        - ow && 2 * ay - ah < 2 * oy + oh && 2 * ay + ah > 2 * oy - oh
}

} // verus!
