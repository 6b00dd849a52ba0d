use vstd::prelude::*;

verus! {

/// A cursor position as the window reports it: whole pixels, origin at the
/// top-left corner, `y` growing downwards.
#[derive(Clone, Copy, Debug, PartialEq, Eq, Structural)]
pub struct WindowPos {
    pub x: i32,
    pub y: i32,
}

/// A position or displacement in pixel units, with `y` growing upwards as in
/// world and shader space.
#[derive(Clone, Copy, Debug, PartialEq, Eq, Structural)]
pub struct Point {
    pub x: i64,
    pub y: i64,
}

/// An opaque 8-bit-per-channel colour.
#[derive(Clone, Copy, Debug, PartialEq, Eq, Structural)]
pub struct Rgb {
    pub r: u8,
    pub g: u8,
    pub b: u8,
}

impl WindowPos {
    pub fn new(x: i32, y: i32) -> (r: WindowPos)
        ensures
            r.x == x,
            r.y == y,
    {
        WindowPos { x, y }
    }

    /// The same position with the vertical axis pointing up.
    pub open spec fn flipped_spec(self) -> Point {
        Point { x: self.x as i64, y: (-self.y) as i64 }
    }

    /// Turns the window's downward `y` into the upward `y` of world space.
    /// This is the one place where the vertical axis is inverted.
    pub fn flipped(self) -> (r: Point)
        ensures
            r == self.flipped_spec(),
            r.x == self.x,
            r.y == -self.y,
    {
        Point { x: self.x as i64, y: -(self.y as i64) }
    }
}

impl Point {
    pub fn new(x: i64, y: i64) -> (r: Point)
        ensures
            r.x == x,
            r.y == y,
    {
        Point { x, y }
    }
}

impl Rgb {
    pub fn new(r: u8, g: u8, b: u8) -> (c: Rgb)
        ensures
            c.r == r,
            c.g == g,
            c.b == b,
    {
        Rgb { r, g, b }
    }
}

} // verus!
