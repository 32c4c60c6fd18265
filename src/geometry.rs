//! Plain geometric values in device pixels.
use vstd::prelude::*;

verus! {

/// A point given by a caller, in device pixels.
#[derive(Clone, Copy, Debug, PartialEq, Eq, Structural)]
pub struct Point {
    pub x: i32,
    pub y: i32,
}

/// A point computed by the library; wide enough for sums of caller coordinates.
#[derive(Clone, Copy, Debug, PartialEq, Eq, Structural)]
pub struct Position {
    pub x: i64,
    pub y: i64,
}

/// An axis-aligned rectangle: its top-left corner and its size.
#[derive(Clone, Copy, Debug, PartialEq, Eq, Structural)]
pub struct Rectangle {
    pub x: i64,
    pub y: i64,
    pub width: i64,
    pub height: i64,
}

/// The magnitude that every coordinate derived from caller input stays within.
pub const COORD_LIMIT: i64 = 0x2_0000_0000;

pub open spec fn in_limit(v: int) -> bool {
    -COORD_LIMIT <= v <= COORD_LIMIT
}

impl Point {
    pub fn new(x: i32, y: i32) -> (p: Point)
        ensures
            p == (Point { x, y }),
    {
        Point { x, y }
    }
}

impl Rectangle {
    /// A rectangle whose corners lie within the coordinate limit and whose size
    /// is not negative.
    pub open spec fn wf(self) -> bool {
        &&& 0 <= self.width
        &&& 0 <= self.height
        &&& in_limit(self.x as int)
        &&& in_limit(self.y as int)
        &&& in_limit(self.x + self.width)
        &&& in_limit(self.y + self.height)
    }

    pub open spec fn right(self) -> int {
        self.x + self.width
    }

    pub open spec fn bottom(self) -> int {
        self.y + self.height
    }

    /// Whether `inner` lies within this rectangle.
    pub open spec fn contains(self, inner: Rectangle) -> bool {
        &&& self.x <= inner.x
        &&& self.y <= inner.y
        &&& inner.right() <= self.right()
        &&& inner.bottom() <= self.bottom()
    }

    pub fn position(&self) -> (p: Position)
        ensures
            p == (Position { x: self.x, y: self.y }),
    {
        Position { x: self.x, y: self.y }
    }
}

} // verus!
