//! Geometric value types: positions, sizes and rectangles.
//!
//! `x` and `y` grow rightward and downward from the upper left-hand corner
//! of the enclosing window or widget.

use vstd::prelude::*;

verus! {

/// A position in pixels, measured from the upper left-hand corner.
#[derive(Copy, Clone, Debug, PartialEq, Eq, Structural)]
pub struct Point {
    /// Horizontal position, left to right.
    pub x: i32,
    /// Vertical position, top to bottom.
    pub y: i32,
}

impl Point {
    /// Creates a new `Point` from its coordinates.
    pub fn new(x: i32, y: i32) -> (r: Point)
        ensures
            r == (Point { x, y }),
    {
        Point { x, y }
    }
}

/// Creates a new `Point` given `x` and `y` coordinates.
pub fn point(x: i32, y: i32) -> (r: Point)
    ensures
        r == (Point { x, y }),
{
    Point::new(x, y)
}

/// The extent of an object in `w`idth and `h`eight, in pixels.
#[derive(Copy, Clone, Debug, PartialEq, Eq, Structural)]
pub struct Size {
    /// Width in pixels.
    pub w: u32,
    /// Height in pixels.
    pub h: u32,
}

impl Size {
    /// Creates a new `Size` from a width and a height.
    pub fn new(w: u32, h: u32) -> (r: Size)
        ensures
            r == (Size { w, h }),
    {
        Size { w, h }
    }

    /// The number of bytes a surface of this size occupies in GPU memory:
    /// four bytes for each pixel, one each for red, green, blue and alpha.
    pub fn get_memory_size(&self) -> (r: u32)
        requires
            self.w * self.h * 4 <= u32::MAX,
        ensures
            r == self.w * self.h * 4,
    {
        self.w * self.h * 4
    }
}

/// Creates a new `Size` given its `w`idth and `h`eight.
pub fn size(w: u32, h: u32) -> (r: Size)
    ensures
        r == (Size { w, h }),
{
    Size::new(w, h)
}

/// An axis-aligned rectangle: an origin plus an extent.
#[derive(Copy, Clone, Debug, PartialEq, Eq, Structural)]
pub struct Rect {
    /// Horizontal position of the left edge.
    pub x: i32,
    /// Vertical position of the top edge.
    pub y: i32,
    /// Width in pixels.
    pub w: u32,
    /// Height in pixels.
    pub h: u32,
}

/// Creates a new `Rect` from a `Point` of origin and a `Size`.
pub fn make_rect(origin: Point, bounds: Size) -> (r: Rect)
    ensures
        r == (Rect { x: origin.x, y: origin.y, w: bounds.w, h: bounds.h }),
{
    Rect { x: origin.x, y: origin.y, w: bounds.w, h: bounds.h }
}

/// Creates a new `Rect` from `x`, `y`, `w`, and `h` values.
pub fn rect(x: i32, y: i32, w: u32, h: u32) -> (r: Rect)
    ensures
        r == (Rect { x, y, w, h }),
{
    make_rect(point(x, y), size(w, h))
}

/// Returns the point of origin, `(0, 0)`.
pub fn origin_point() -> (r: Point)
    ensures
        r == (Point { x: 0, y: 0 }),
{
    Point { x: 0, y: 0 }
}

} // verus!
