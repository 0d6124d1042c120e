//! Axis-aligned screen geometry: points, shapes and rectangles over integer
//! screen coordinates. Rectangle intersection is the basis of both the
//! visibility test and the collision scan.

use vstd::prelude::*;

verus! {

/// A position on (or off) the screen, in pixels.
#[derive(Clone, Copy, PartialEq, Eq, Structural, Debug)]
pub struct Point {
    pub x: i16,
    pub y: i16,
}

/// The extent of a sprite frame or of a collision volume, in pixels.
#[derive(Clone, Copy, PartialEq, Eq, Structural, Debug)]
pub struct Shape {
    pub width: i16,
    pub height: i16,
}

/// An axis-aligned rectangle: an origin (top-left corner) and a shape.
#[derive(Clone, Copy, PartialEq, Eq, Structural, Debug)]
pub struct Rect {
    pub origin: Point,
    pub shape: Shape,
}

/// Two rectangles overlap when each one's left edge lies strictly before the
/// other's right edge, and likewise vertically. Rectangles with zero or
/// negative width or height overlap nothing.
pub open spec fn spec_overlaps(a: Rect, b: Rect) -> bool {
    &&& a.origin.x < b.origin.x + b.shape.width
    &&& b.origin.x < a.origin.x + a.shape.width
    &&& a.origin.y < b.origin.y + b.shape.height
    &&& b.origin.y < a.origin.y + a.shape.height
}

/// A screen rectangle the layout arithmetic can work inside: nonnegative
/// origin and extent, each at most 4000 pixels.
pub open spec fn spec_screen_ok(r: Rect) -> bool {
    &&& 0 <= r.origin.x <= 4000
    &&& 0 <= r.origin.y <= 4000
    &&& 0 <= r.shape.width <= 4000
    &&& 0 <= r.shape.height <= 4000
}

impl Rect {
    pub fn new(origin: Point, shape: Shape) -> (r: Rect)
        ensures
            r == (Rect { origin, shape }),
    {
        Rect { origin, shape }
    }

    pub fn new_from_x_y_w_h(x: i16, y: i16, width: i16, height: i16) -> (r: Rect)
        ensures
            r == (Rect { origin: Point { x, y }, shape: Shape { width, height } }),
    {
        Rect { origin: Point { x, y }, shape: Shape { width, height } }
    }

    /// Strict overlap test; touching edges do not intersect.
    pub fn intersects(&self, rect: &Rect) -> (r: bool)
        ensures
            r == spec_overlaps(*self, *rect),
    {
        ((self.origin.x as i32) < (rect.origin.x as i32) + (rect.shape.width as i32))
            && ((rect.origin.x as i32) < (self.origin.x as i32) + (self.shape.width as i32))
            && ((self.origin.y as i32) < (rect.origin.y as i32) + (rect.shape.height as i32))
            && ((rect.origin.y as i32) < (self.origin.y as i32) + (self.shape.height as i32))
    }

    pub fn x(&self) -> (r: i16)
        ensures
            r == self.origin.x,
    {
        self.origin.x
    }

    pub fn y(&self) -> (r: i16)
        ensures
            r == self.origin.y,
    {
        self.origin.y
    }

    pub fn width(&self) -> (r: i16)
        ensures
            r == self.shape.width,
    {
        self.shape.width
    }

    pub fn height(&self) -> (r: i16)
        ensures
            r == self.shape.height,
    {
        self.shape.height
    }

    pub fn left(&self) -> (r: i16)
        ensures
            r == self.origin.x,
    {
        self.origin.x
    }

    pub fn top(&self) -> (r: i16)
        ensures
            r == self.origin.y,
    {
        self.origin.y
    }

    /// One past the rightmost column covered by the rectangle. The sum must
    /// fit the coordinate type.
    pub fn right(&self) -> (r: i16)
        requires
            i16::MIN <= self.origin.x + self.shape.width <= i16::MAX,
        ensures
            r == self.origin.x + self.shape.width,
    {
        self.origin.x + self.shape.width
    }

    /// One past the bottommost row covered by the rectangle. The sum must
    /// fit the coordinate type.
    pub fn bottom(&self) -> (r: i16)
        requires
            i16::MIN <= self.origin.y + self.shape.height <= i16::MAX,
        ensures
            r == self.origin.y + self.shape.height,
    {
        self.origin.y + self.shape.height
    }

    pub fn set_x(&mut self, x: i16)
        ensures
            *final(self) == (Rect { origin: Point { x, y: old(self).origin.y }, ..*old(self) }),
    {
        self.origin.x = x;
    }

    pub fn set_y(&mut self, y: i16)
        ensures
            *final(self) == (Rect { origin: Point { x: old(self).origin.x, y }, ..*old(self) }),
    {
        self.origin.y = y;
    }
}

} // verus!
