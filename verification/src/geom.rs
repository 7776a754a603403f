//! Axis-aligned rectangles and points in fixed-point world coordinates.
//!
//! One world unit is `UNIT` stored ticks. Rectangles keep their top-left
//! corner and a non-negative size. Overlap is strict on both axes: touching
//! edges do not overlap, while `intersect` still reports the (then
//! zero-extent) common region, so callers can tell "no overlap" from a
//! zero-width overlap at a touching edge.

use vstd::prelude::*;

use crate::nums::{clamp_spec, tdiv};

verus! {

/// Stored ticks per world unit: the fixed-point scale of every coordinate,
/// size, speed and fraction in the crate.
pub const UNIT: i64 = 1000;

/// Largest magnitude a stored position coordinate may take.
pub const POS_LIMIT: i64 = 1_000_000_000_000;

/// Largest width or height a rectangle may take.
pub const SIZE_LIMIT: i64 = 1_000_000_000;

/// A point (or displacement) in fixed-point world coordinates.
#[derive(Clone, Copy, PartialEq, Eq, Structural, Debug)]
pub struct Vec2 {
    pub x: i64,
    pub y: i64,
}

/// An axis-aligned rectangle: top-left corner and size.
#[derive(Clone, Copy, PartialEq, Eq, Structural, Debug)]
pub struct Rect {
    pub x: i64,
    pub y: i64,
    pub w: i64,
    pub h: i64,
}

impl Vec2 {
    /// Both coordinates lie within `lim`.
    pub open spec fn within(self, lim: int) -> bool {
        -lim <= self.x <= lim && -lim <= self.y <= lim
    }

    pub fn new(x: i64, y: i64) -> (v: Vec2)
        ensures
            v.x == x,
            v.y == y,
    {
        Vec2 { x, y }
    }
}

impl Rect {
    /// The position lies within `lim` and the size is well formed.
    pub open spec fn within(self, lim: int) -> bool {
        -lim <= self.x <= lim && -lim <= self.y <= lim && 0 <= self.w <= SIZE_LIMIT && 0 <= self.h
            <= SIZE_LIMIT
    }

    /// A well-formed stored rectangle: position within `POS_LIMIT`,
    /// non-negative size within `SIZE_LIMIT`.
    pub open spec fn wf(self) -> bool {
        self.within(POS_LIMIT as int)
    }

    pub fn new(x: i64, y: i64, w: i64, h: i64) -> (r: Rect)
        ensures
            r == (Rect { x, y, w, h }),
    {
        Rect { x, y, w, h }
    }

    /// The top-left corner.
    pub open spec fn spec_point(self) -> Vec2 {
        Vec2 { x: self.x, y: self.y }
    }

    /// The top-left corner.
    pub fn point(&self) -> (p: Vec2)
        ensures
            p == self.spec_point(),
    {
        Vec2 { x: self.x, y: self.y }
    }

    /// The x coordinate of the center (halves round down).
    pub open spec fn cx(self) -> int {
        self.x + tdiv(self.w as int, 2)
    }

    /// The y coordinate of the center (halves round down).
    pub open spec fn cy(self) -> int {
        self.y + tdiv(self.h as int, 2)
    }

    /// The center: top-left plus half the size (halves round down).
    pub fn center(&self) -> (c: Vec2)
        requires
            self.wf(),
        ensures
            c.x == self.cx(),
            c.y == self.cy(),
    {
        Vec2 { x: self.x + self.w / 2, y: self.y + self.h / 2 }
    }

    /// Strict AABB overlap: the extents intersect with positive measure on
    /// both axes; touching edges do not count.
    pub open spec fn spec_overlaps(self, o: Rect) -> bool {
        self.x < o.x + o.w && o.x < self.x + self.w && self.y < o.y + o.h && o.y < self.y + self.h
    }

    /// Strict AABB overlap test.
    pub fn overlaps(&self, o: &Rect) -> (r: bool)
        ensures
            r == self.spec_overlaps(*o),
    {
        let sx = self.x as i128;
        let sy = self.y as i128;
        let ox = o.x as i128;
        let oy = o.y as i128;
        sx < ox + o.w as i128 && ox < sx + self.w as i128 && sy < oy + o.h as i128 && oy < sy
            + self.h as i128
    }

    /// Whether the closed extents of the two rectangles meet on both axes;
    /// when they do, `spec_intersection` is the common region.
    pub open spec fn spec_meets(self, o: Rect) -> bool {
        self.x <= o.x + o.w && o.x <= self.x + self.w && self.y <= o.y + o.h && o.y <= self.y
            + self.h
    }

    /// The common region of two meeting rectangles (zero-extent when they
    /// only touch).
    pub open spec fn spec_intersection(self, o: Rect) -> Rect {
        let left = if self.x >= o.x {
            self.x
        } else {
            o.x
        };
        let top = if self.y >= o.y {
            self.y
        } else {
            o.y
        };
        let right = if self.x + self.w <= o.x + o.w {
            self.x + self.w
        } else {
            o.x + o.w
        };
        let bottom = if self.y + self.h <= o.y + o.h {
            self.y + self.h
        } else {
            o.y + o.h
        };
        Rect { x: left as i64, y: top as i64, w: (right - left) as i64, h: (bottom - top) as i64 }
    }

    /// The overlapping sub-rectangle, or `None` when the rectangles are
    /// disjoint on some axis. Touching rectangles yield a zero-extent
    /// rectangle, not `None`.
    pub fn intersect(&self, o: &Rect) -> (r: Option<Rect>)
        requires
            0 <= self.w,
            0 <= self.h,
            0 <= o.w,
            0 <= o.h,
        ensures
            r is Some <==> self.spec_meets(*o),
            r is Some ==> r->Some_0 == self.spec_intersection(*o),
    {
        let sx = self.x as i128;
        let sy = self.y as i128;
        let ox = o.x as i128;
        let oy = o.y as i128;
        let left = if sx >= ox {
            sx
        } else {
            ox
        };
        let top = if sy >= oy {
            sy
        } else {
            oy
        };
        let right = if sx + self.w as i128 <= ox + o.w as i128 {
            sx + self.w as i128
        } else {
            ox + o.w as i128
        };
        let bottom = if sy + self.h as i128 <= oy + o.h as i128 {
            sy + self.h as i128
        } else {
            oy + o.h as i128
        };
        if right >= left && bottom >= top {
            Some(
                Rect {
                    x: left as i64,
                    y: top as i64,
                    w: (right - left) as i64,
                    h: (bottom - top) as i64,
                },
            )
        } else {
            None
        }
    }
}

/// Componentwise linear interpolation from `p0` to `p1` by the fraction
/// `t / UNIT`; `t` is not clamped here, callers clamp when they need a
/// bounded interpolation.
pub open spec fn lerp_val(a: int, b: int, t: int) -> int {
    a + tdiv((b - a) * t, UNIT as int)
}

/// Componentwise linear interpolation between two points.
pub fn lerp(p0: Vec2, p1: Vec2, t: i64) -> (p: Vec2)
    requires
        p0.within(POS_LIMIT as int),
        p1.within(POS_LIMIT as int),
        0 <= t <= 100 * UNIT,
    ensures
        p.x == lerp_val(p0.x as int, p1.x as int, t as int),
        p.y == lerp_val(p0.y as int, p1.y as int, t as int),
{
    let dx = p1.x - p0.x;
    let dy = p1.y - p0.y;
    assert(-200_000_000_000_000_000 <= dx * t <= 200_000_000_000_000_000) by (nonlinear_arith)
        requires
            -2_000_000_000_000 <= dx <= 2_000_000_000_000,
            0 <= t <= 100_000,
    {
    }
    assert(-200_000_000_000_000_000 <= dy * t <= 200_000_000_000_000_000) by (nonlinear_arith)
        requires
            -2_000_000_000_000 <= dy <= 2_000_000_000_000,
            0 <= t <= 100_000,
    {
    }
    Vec2 { x: p0.x + dx * t / UNIT, y: p0.y + dy * t / UNIT }
}

/// Overlap is symmetric, and a rectangle with positive extent overlaps
/// itself.
pub proof fn lemma_overlap_symmetric_and_reflexive(a: Rect, b: Rect)
    ensures
        a.spec_overlaps(b) == b.spec_overlaps(a),
        a.w > 0 && a.h > 0 ==> a.spec_overlaps(a),
{
}

/// For rectangles that do not touch edge to edge, `intersect` returns
/// `None` exactly when the rectangles do not overlap.
pub proof fn lemma_intersect_none_iff_disjoint(a: Rect, b: Rect)
    requires
        a.w > 0,
        a.h > 0,
        b.w > 0,
        b.h > 0,
        a.x != b.x + b.w,
        b.x != a.x + a.w,
        a.y != b.y + b.h,
        b.y != a.y + a.h,
    ensures
        !a.spec_meets(b) <==> !a.spec_overlaps(b),
{
}

/// Clamps a point into the stored position range.
pub fn clamp_point(x: i64, y: i64) -> (p: Vec2)
    ensures
        p.x == clamp_spec(x as int, POS_LIMIT as int),
        p.y == clamp_spec(y as int, POS_LIMIT as int),
        p.within(POS_LIMIT as int),
{
    Vec2 {
        x: crate::nums::clamp_i64(x, POS_LIMIT),
        y: crate::nums::clamp_i64(y, POS_LIMIT),
    }
}

} // verus!
