//! Points, sizes and rectangles in whole units.
use vstd::prelude::*;

verus! {

/// A position in a two-dimensional coordinate space.
#[derive(Clone, Copy, Debug, PartialEq, Eq, Structural)]
pub struct Point {
    pub x: i64,
    pub y: i64,
}

/// A width and a height.
#[derive(Clone, Copy, Debug, PartialEq, Eq, Structural)]
pub struct Size {
    pub width: i64,
    pub height: i64,
}

/// An axis-aligned rectangle given by its top-left corner and its size.
#[derive(Clone, Copy, Debug, PartialEq, Eq, Structural)]
pub struct Rectangle {
    pub x: i64,
    pub y: i64,
    pub width: i64,
    pub height: i64,
}

/// Whether a mathematical integer can be held in an `i64`.
pub open spec fn fits_i64(v: int) -> bool {
    i64::MIN <= v <= i64::MAX
}

/// `v / 2` rounded towards negative infinity.
pub open spec fn half_floor(v: int) -> int {
    v / 2
}

/// Halves `v`, rounding towards negative infinity.
pub fn halve_floor(v: i128) -> (r: i128)
    ensures
        r == half_floor(v as int),
{
    if v >= 0 {
        v / 2
    } else {
        let m: i128 = -(v + 1);
        -(m / 2) - 1
    }
}

impl Point {
    /// Creates a point.
    pub fn new(x: i64, y: i64) -> (r: Point)
        ensures
            r.x == x,
            r.y == y,
    {
        Point { x, y }
    }
}

impl Size {
    /// Creates a size.
    pub fn new(width: i64, height: i64) -> (r: Size)
        ensures
            r.width == width,
            r.height == height,
    {
        Size { width, height }
    }
}

impl Rectangle {
    /// Creates a rectangle from its top-left corner and its size.
    pub fn new(x: i64, y: i64, width: i64, height: i64) -> (r: Rectangle)
        ensures
            r.x == x,
            r.y == y,
            r.width == width,
            r.height == height,
    {
        Rectangle { x, y, width, height }
    }

    /// A rectangle of the given size whose corner is the origin.
    pub fn with_size(size: Size) -> (r: Rectangle)
        ensures
            r.x == 0,
            r.y == 0,
            r.width == size.width,
            r.height == size.height,
    {
        Rectangle { x: 0, y: 0, width: size.width, height: size.height }
    }

    /// The top-left corner.
    pub fn position(&self) -> (r: Point)
        ensures
            r.x == self.x,
            r.y == self.y,
    {
        Point { x: self.x, y: self.y }
    }

    /// The width and height.
    pub fn size(&self) -> (r: Size)
        ensures
            r.width == self.width,
            r.height == self.height,
    {
        Size { width: self.width, height: self.height }
    }
}

} // verus!
