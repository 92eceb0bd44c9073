//! Points, vectors and axis-aligned rectangles over fixed-point coordinates.

use vstd::prelude::*;
use crate::fixed::{product, times};

verus! {

/// A place in the game world; `y` grows downward.
#[derive(Clone, Copy, Debug, PartialEq, Eq, Structural)]
pub struct Point2 {
    pub x: i64,
    pub y: i64,
}

/// A displacement, a velocity or a pair of scale factors.
#[derive(Clone, Copy, Debug, PartialEq, Eq, Structural)]
pub struct Vector2 {
    pub x: i64,
    pub y: i64,
}

/// A rectangle given by its origin and its extent. A negative extent is
/// kept as it is: such a rectangle has its right edge left of its left edge.
#[derive(Clone, Copy, Debug, PartialEq, Eq, Structural)]
pub struct Rect {
    pub x: i64,
    pub y: i64,
    pub w: i64,
    pub h: i64,
}

impl Point2 {
    pub fn new(x: i64, y: i64) -> (p: Self)
        ensures
            p == (Point2 { x, y }),
    {
        Point2 { x, y }
    }
}

impl Vector2 {
    pub fn new(x: i64, y: i64) -> (v: Self)
        ensures
            v == (Vector2 { x, y }),
    {
        Vector2 { x, y }
    }
}

impl Rect {
    /// The left edge.
    pub open spec fn left(self) -> int {
        self.x as int
    }

    /// The right edge, exactly.
    pub open spec fn right(self) -> int {
        self.x + self.w
    }

    /// The upper edge.
    pub open spec fn top(self) -> int {
        self.y as int
    }

    /// The lower edge, exactly.
    pub open spec fn bottom(self) -> int {
        self.y + self.h
    }

    /// Two rectangles overlap when each one's leading edge lies at or before
    /// the other's trailing edge, on both axes. Edges that touch count.
    pub open spec fn overlaps_spec(self, other: Rect) -> bool {
        &&& self.left() <= other.right()
        &&& self.right() >= other.left()
        &&& self.top() <= other.bottom()
        &&& self.bottom() >= other.top()
    }

    /// The rectangle with its origin at `destination` and its extent kept.
    pub open spec fn moved_to(self, destination: Point2) -> Rect {
        Rect { x: destination.x, y: destination.y, w: self.w, h: self.h }
    }

    /// The rectangle with its extent multiplied by the factors `sx` and `sy`
    /// and its origin kept.
    pub open spec fn scaled(self, sx: i64, sy: i64) -> Rect {
        Rect {
            x: self.x,
            y: self.y,
            w: product(self.w as int, sx as int) as i64,
            h: product(self.h as int, sy as int) as i64,
        }
    }

    pub fn new(x: i64, y: i64, w: i64, h: i64) -> (r: Self)
        ensures
            r == (Rect { x, y, w, h }),
    {
        Rect { x, y, w, h }
    }

    /// Checks whether the rectangle overlaps another one.
    pub fn overlaps(&self, other: &Rect) -> (hit: bool)
        ensures
            hit == self.overlaps_spec(*other),
    {
        let right: i128 = self.x as i128 + self.w as i128;
        let bottom: i128 = self.y as i128 + self.h as i128;
        let other_right: i128 = other.x as i128 + other.w as i128;
        let other_bottom: i128 = other.y as i128 + other.h as i128;
        self.x as i128 <= other_right && right >= other.x as i128 && self.y as i128 <= other_bottom
            && bottom >= other.y as i128
    }

    /// Moves the rectangle's origin to `destination`.
    pub fn move_to(&mut self, destination: Point2)
        ensures
            *final(self) == old(self).moved_to(destination),
    {
        self.x = destination.x;
        self.y = destination.y;
    }

    /// Scales the rectangle's extent by the factors `sx` and `sy`.
    pub fn scale(&mut self, sx: i64, sy: i64)
        ensures
            *final(self) == old(self).scaled(sx, sy),
    {
        self.w = times(self.w, sx);
        self.h = times(self.h, sy);
    }
}

} // verus!
