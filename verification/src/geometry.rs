//! Integer points and axis-aligned rectangles.
//!
//! Containment is half-open on both axes: a rectangle covers the points
//! `min.x <= x < max.x`, `min.y <= y < max.y`.  Two rectangles that share
//! an edge are therefore disjoint, which is what lets the resize zones
//! tile the window border without overlaps.

use vstd::prelude::*;
use crate::COORD_LIMIT;

verus! {

/// A point in integer UI coordinates (x grows rightward, y downward).
#[derive(Clone, Copy, PartialEq, Eq, Structural, Debug)]
pub struct Pos {
    pub x: i32,
    pub y: i32,
}

/// An axis-aligned rectangle given by its top-left (`min`) and
/// bottom-right (`max`) corners.
#[derive(Clone, Copy, PartialEq, Eq, Structural, Debug)]
pub struct Rect {
    pub min: Pos,
    pub max: Pos,
}

/// A coordinate the chrome is prepared to work with.
pub open spec fn coord_ok(c: int) -> bool {
    -COORD_LIMIT <= c && c <= COORD_LIMIT
}

impl Pos {
    pub open spec fn bounded(self) -> bool {
        coord_ok(self.x as int) && coord_ok(self.y as int)
    }
}

impl Rect {
    /// Not inverted: `min <= max` on both axes.
    pub open spec fn well_formed(self) -> bool {
        self.min.x <= self.max.x && self.min.y <= self.max.y
    }

    pub open spec fn bounded(self) -> bool {
        self.min.bounded() && self.max.bounded()
    }

    /// Half-open containment: `min` is inside, `max` is not.
    pub open spec fn spec_contains(self, p: Pos) -> bool {
        &&& self.min.x <= p.x
        &&& p.x < self.max.x
        &&& self.min.y <= p.y
        &&& p.y < self.max.y
    }

    /// A rectangle that contains no point at all.
    pub open spec fn spec_is_empty(self) -> bool {
        self.min.x >= self.max.x || self.min.y >= self.max.y
    }

    pub open spec fn spec_width(self) -> int {
        self.max.x - self.min.x
    }

    pub open spec fn spec_height(self) -> int {
        self.max.y - self.min.y
    }

    pub fn contains(&self, p: Pos) -> (r: bool)
        ensures
            r == self.spec_contains(p),
    {
        self.min.x <= p.x && p.x < self.max.x && self.min.y <= p.y && p.y < self.max.y
    }

    pub fn is_empty(&self) -> (r: bool)
        ensures
            r == self.spec_is_empty(),
    {
        self.min.x >= self.max.x || self.min.y >= self.max.y
    }

    pub fn width(&self) -> (w: i32)
        requires
            self.bounded(),
        ensures
            w == self.spec_width(),
    {
        self.max.x - self.min.x
    }

    pub fn height(&self) -> (h: i32)
        requires
            self.bounded(),
        ensures
            h == self.spec_height(),
    {
        self.max.y - self.min.y
    }
}

/// The larger of two coordinates; used to clamp degenerate zones to empty
/// rather than inverted rectangles.
pub fn coord_max(a: i32, b: i32) -> (r: i32)
    ensures
        r == if a >= b { a as int } else { b as int },
{
    if a >= b { a } else { b }
}

} // verus!
