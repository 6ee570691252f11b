//! Shared spatial vocabulary of the actors: world points and vectors,
//! render-time bounding boxes, and the one-axis overlap test that drives
//! every interaction.

use vstd::prelude::*;

verus! {

/// Largest magnitude a bounding-box coordinate or extent may take.
pub const RECT_LIMIT: i64 = 0x10_0000_0000_0000;

/// A point in world space, in thousandths of a world unit.
#[derive(Clone, Copy, Debug, PartialEq, Eq, Structural)]
pub struct WorldPoint2 {
    pub x: i64,
    pub y: i64,
}

impl WorldPoint2 {
    pub fn new(x: i64, y: i64) -> (r: WorldPoint2)
        ensures
            r.x == x,
            r.y == y,
    {
        WorldPoint2 { x, y }
    }
}

/// A velocity in world space, in world units per second.
#[derive(Clone, Copy, Debug, PartialEq, Eq, Structural)]
pub struct WorldVector2 {
    pub x: i64,
    pub y: i64,
}

impl WorldVector2 {
    pub fn new(x: i64, y: i64) -> (r: WorldVector2)
        ensures
            r.x == x,
            r.y == y,
    {
        WorldVector2 { x, y }
    }
}

/// A render-time bounding box: origin, then width and height, in
/// thousandths of a world unit. The renderer reports one per sprite.
#[derive(Clone, Copy, Debug, PartialEq, Eq, Structural)]
pub struct Rect {
    pub x: i64,
    pub y: i64,
    pub w: i64,
    pub h: i64,
}

/// The coordinate ranges under which the overlap arithmetic cannot
/// overflow.
pub open spec fn rect_wf(r: Rect) -> bool {
    &&& -RECT_LIMIT <= r.x <= RECT_LIMIT
    &&& -RECT_LIMIT <= r.y <= RECT_LIMIT
    &&& 0 <= r.w <= RECT_LIMIT
    &&& 0 <= r.h <= RECT_LIMIT
}

impl Rect {
    pub fn new(x: i64, y: i64, w: i64, h: i64) -> (r: Rect)
        ensures
            r == (Rect { x, y, w, h }),
    {
        Rect { x, y, w, h }
    }
}

/// Whether two actors' horizontal projections intersect, over the raw
/// box origins and widths. Each actor's interval is half its
/// interaction width on each side of its box's horizontal center; the
/// vertical axis is never tested.
pub open spec fn spec_overlap_ints(
    bx1: int,
    bw1: int,
    w1: int,
    bx2: int,
    bw2: int,
    w2: int,
) -> bool {
    let c1 = bx1 + bw1 / 2;
    let c2 = bx2 + bw2 / 2;
    !(c1 + w1 / 2 < c2 - w2 / 2 || c2 + w2 / 2 < c1 - w1 / 2)
}

/// Whether the horizontal projections of two actors intersect.
pub open spec fn spec_overlap(r1: Rect, w1: int, r2: Rect, w2: int) -> bool {
    spec_overlap_ints(r1.x as int, r1.w as int, w1, r2.x as int, r2.w as int, w2)
}

/// The horizontal projections of two actors' intervals intersect.
pub fn overlap(r1: &Rect, w1: i64, r2: &Rect, w2: i64) -> (b: bool)
    requires
        rect_wf(*r1),
        rect_wf(*r2),
        0 <= w1 <= RECT_LIMIT,
        0 <= w2 <= RECT_LIMIT,
    ensures
        b == spec_overlap(*r1, w1 as int, *r2, w2 as int),
{
    let r1_hw = w1 / 2;
    let r2_hw = w2 / 2;

    let r1_x = r1.x + r1.w / 2;
    let r1_xmin = r1_x - r1_hw;
    let r1_xmax = r1_x + r1_hw;

    let r2_x = r2.x + r2.w / 2;
    let r2_xmin = r2_x - r2_hw;
    let r2_xmax = r2_x + r2_hw;

    if r1_xmax < r2_xmin {
        false
    } else if r2_xmax < r1_xmin {
        false
    } else {
        true
    }
}

/// Overlap is symmetric: testing `a` against `b` and `b` against `a`
/// give the same answer, for every pair of boxes and widths.
pub proof fn lemma_overlap_symmetric(r1: Rect, w1: int, r2: Rect, w2: int)
    ensures
        spec_overlap(r1, w1, r2, w2) == spec_overlap(r2, w2, r1, w1),
{
}

} // verus!
