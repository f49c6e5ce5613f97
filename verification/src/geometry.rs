//! Fixed-point positions and rectangles.
//!
//! Every coordinate and every length of this crate is a whole number of
//! ticks, `TICKS_PER_UNIT` of them to one canvas unit.

use vstd::prelude::*;

verus! {

/// How many ticks make one canvas unit.
pub const TICKS_PER_UNIT: i64 = 1000;

/// The largest magnitude of a coordinate that the grid operations take.
pub const COORD_LIMIT: i64 = 0x1000_0000_0000_0000;

/// The largest cell size that the grid operations take, in ticks.
pub const MAX_SIZE: i64 = 0x4000_0000;

/// A position, as mathematics sees it: two unbounded integers, in ticks.
pub struct PointView {
    pub x: int,
    pub y: int,
}

/// A position on the canvas, in ticks.
#[derive(Clone, Copy, Debug, PartialEq, Eq, Structural)]
pub struct Point {
    pub x: i64,
    pub y: i64,
}

impl View for Point {
    type V = PointView;

    open spec fn view(&self) -> PointView {
        PointView { x: self.x as int, y: self.y as int }
    }
}

/// Whether one coordinate is small enough for the grid operations.
pub open spec fn coord_in_range(c: int) -> bool {
    -(COORD_LIMIT as int) <= c <= COORD_LIMIT as int
}

impl Point {
    /// Whether both coordinates are small enough for the grid operations.
    pub open spec fn in_range(self) -> bool {
        coord_in_range(self.x as int) && coord_in_range(self.y as int)
    }

    /// The position `(x, y)`.
    pub fn new(x: i64, y: i64) -> (p: Point)
        ensures
            p.x == x,
            p.y == y,
    {
        Point { x, y }
    }

    /// Tells whether both coordinates are small enough for the grid operations.
    pub fn is_in_range(&self) -> (ok: bool)
        ensures
            ok == self.in_range(),
    {
        -COORD_LIMIT <= self.x && self.x <= COORD_LIMIT && -COORD_LIMIT <= self.y && self.y
            <= COORD_LIMIT
    }
}

/// A rectangle, as mathematics sees it.
pub struct RectView {
    pub min: PointView,
    pub max: PointView,
}

impl RectView {
    /// Whether `p` lies in the rectangle, its edges included.
    pub open spec fn contains(self, p: PointView) -> bool {
        self.min.x <= p.x <= self.max.x && self.min.y <= p.y <= self.max.y
    }

    /// All four coordinates are small enough for the grid operations.
    pub open spec fn in_range(self) -> bool {
        &&& coord_in_range(self.min.x)
        &&& coord_in_range(self.min.y)
        &&& coord_in_range(self.max.x)
        &&& coord_in_range(self.max.y)
    }

    /// The extent along x; negative when the rectangle is turned inside out.
    pub open spec fn width(self) -> int {
        self.max.x - self.min.x
    }

    /// The extent along y; negative when the rectangle is turned inside out.
    pub open spec fn height(self) -> int {
        self.max.y - self.min.y
    }
}

/// An axis-aligned rectangle given by two corners, in ticks.
#[derive(Clone, Copy, Debug, PartialEq, Eq, Structural)]
pub struct Rect {
    /// The corner with the smaller coordinates.
    pub min: Point,
    /// The corner with the larger coordinates.
    pub max: Point,
}

impl View for Rect {
    type V = RectView;

    open spec fn view(&self) -> RectView {
        RectView { min: self.min@, max: self.max@ }
    }
}

impl Rect {
    /// Whether both corners are small enough for the grid operations.
    pub open spec fn in_range(self) -> bool {
        self@.in_range()
    }

    /// The rectangle between the corners `min` and `max`.
    pub fn from_min_max(min: Point, max: Point) -> (r: Rect)
        ensures
            r.min == min,
            r.max == max,
    {
        Rect { min, max }
    }

    /// Tells whether both corners are small enough for the grid operations.
    pub fn is_in_range(&self) -> (ok: bool)
        ensures
            ok == self.in_range(),
    {
        self.min.is_in_range() && self.max.is_in_range()
    }

    /// Tells whether `p` lies in the rectangle, its edges included.
    pub fn contains(&self, p: Point) -> (inside: bool)
        ensures
            inside == self@.contains(p@),
    {
        self.min.x <= p.x && p.x <= self.max.x && self.min.y <= p.y && p.y <= self.max.y
    }
}

} // verus!
