//! Rectangles, points and sizes on a grid of whole units.
//!
//! A `Rect` is given by its centre and its full extent, so its edges may lie
//! on half units. To stay in integers every edge is exposed doubled.

use vstd::prelude::*;

verus! {

/// An axis-aligned box: centre `(x, y)`, full width `w` and full height `h`.
#[derive(Clone, Copy, Debug, PartialEq, Eq, Structural)]
pub struct Rect {
    pub x: i64,
    pub y: i64,
    pub w: i64,
    pub h: i64,
}

#[derive(Clone, Copy, Debug, PartialEq, Eq, Structural)]
pub struct Point {
    pub x: i64,
    pub y: i64,
}

#[derive(Clone, Copy, Debug, PartialEq, Eq, Structural)]
pub struct Size {
    pub w: i64,
    pub h: i64,
}

/// A rectangle in the unit square of a sheet: every coordinate of `rect` is
/// read as a fraction of the matching extent of `sheet`.
#[derive(Clone, Copy, Debug, PartialEq, Eq, Structural)]
pub struct UvRect {
    pub rect: Rect,
    pub sheet: Size,
}

/// A magnitude for coordinates within which the sum or difference of any two
/// of them is still an `i64`.
pub const COORD_LIMIT: i64 = 0x2000_0000_0000_0000;

impl Rect {
    /// Twice the left edge.
    pub open spec fn left2(self) -> int {
        2 * self.x - self.w
    }

    /// Twice the right edge.
    pub open spec fn right2(self) -> int {
        2 * self.x + self.w
    }

    /// Twice the top edge, the one with the larger `y`.
    pub open spec fn top2(self) -> int {
        2 * self.y + self.h
    }

    /// Twice the bottom edge, the one with the smaller `y`.
    pub open spec fn bottom2(self) -> int {
        2 * self.y - self.h
    }

    /// The point lies strictly between all four edges.
    pub open spec fn contains(self, p: Point) -> bool {
        &&& self.bottom2() < 2 * p.y
        &&& self.top2() > 2 * p.y
        &&& self.left2() < 2 * p.x
        &&& self.right2() > 2 * p.x
    }

    /// Centre coordinates small enough to be shifted by another such value.
    pub open spec fn tame(self) -> bool {
        &&& -COORD_LIMIT <= self.x <= COORD_LIMIT
        &&& -COORD_LIMIT <= self.y <= COORD_LIMIT
    }

    /// The rectangle moved by `by`, extent unchanged.
    pub open spec fn shifted(self, by: Point) -> Rect {
        Rect { x: (self.x + by.x) as i64, y: (self.y + by.y) as i64, w: self.w, h: self.h }
    }

    pub fn new(x: i64, y: i64, w: i64, h: i64) -> (r: Rect)
        ensures
            r == (Rect { x, y, w, h }),
    {
        Rect { x, y, w, h }
    }

    /// Whether the centre is tame.
    pub fn is_tame(&self) -> (tame: bool)
        ensures
            tame == self.tame(),
    {
        -COORD_LIMIT <= self.x && self.x <= COORD_LIMIT && -COORD_LIMIT <= self.y && self.y
            <= COORD_LIMIT
    }

    /// Translates the rectangle by `by`.
    pub fn offset(&self, by: &Point) -> (r: Rect)
        requires
            i64::MIN <= self.x + by.x <= i64::MAX,
            i64::MIN <= self.y + by.y <= i64::MAX,
        ensures
            r == self.shifted(*by),
            r.x == self.x + by.x,
            r.y == self.y + by.y,
    {
        Rect { x: self.x + by.x, y: self.y + by.y, w: self.w, h: self.h }
    }

    /// The centre of the rectangle, the midpoint of opposite edges.
    pub fn center(&self) -> (p: Point)
        ensures
            2 * p.x == (self.left2() + self.right2()) / 2,
            2 * p.y == (self.top2() + self.bottom2()) / 2,
            p == (Point { x: self.x, y: self.y }),
    {
        Point { x: self.x, y: self.y }
    }
}

impl Point {
    pub fn new(x: i64, y: i64) -> (p: Point)
        ensures
            p == (Point { x, y }),
    {
        Point { x, y }
    }

    pub fn zero() -> (p: Point)
        ensures
            p == (Point { x: 0, y: 0 }),
    {
        Point { x: 0, y: 0 }
    }
}

/// Strict containment: a point on an edge of `rect` is outside it.
pub fn point_within(point: &Point, rect: &Rect) -> (inside: bool)
    ensures
        inside == rect.contains(*point),
{
    let px: i128 = 2 * (point.x as i128);
    let py: i128 = 2 * (point.y as i128);
    let cx: i128 = 2 * (rect.x as i128);
    let cy: i128 = 2 * (rect.y as i128);
    let w: i128 = rect.w as i128;
    let h: i128 = rect.h as i128;
    cy - h < py && cy + h > py && cx - w < px && cx + w > px
}

/// A rectangle with no extent, or a negative one, contains no point.
pub proof fn lemma_empty_rect_contains_nothing(rect: Rect, p: Point)
    requires
        rect.w <= 0 || rect.h <= 0,
    ensures
        !rect.contains(p),
{
}

/// Containment is exactly the strict interior: a point on any edge is out,
/// and so is any point beyond one, whatever the sign of the coordinates.
pub proof fn lemma_contains_is_strict_interior(rect: Rect, p: Point)
    ensures
        2 * p.x == rect.left2() || 2 * p.x == rect.right2() ==> !rect.contains(p),
        2 * p.y == rect.top2() || 2 * p.y == rect.bottom2() ==> !rect.contains(p),
        2 * p.x < rect.left2() || 2 * p.x > rect.right2() ==> !rect.contains(p),
        2 * p.y < rect.bottom2() || 2 * p.y > rect.top2() ==> !rect.contains(p),
        rect.left2() < 2 * p.x < rect.right2() && rect.bottom2() < 2 * p.y < rect.top2()
            ==> rect.contains(p),
{
}

} // verus!
