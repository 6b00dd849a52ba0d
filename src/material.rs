use vstd::prelude::*;

use crate::geometry::{Point, Rgb};

verus! {

/// Side of one grid cell, in pixels, for the pannable grid.
pub const PANNABLE_CELL_SIZE: i32 = 16;

/// Thickness of the grid lines, in pixels, for the pannable grid.
pub const PANNABLE_LINE_WIDTH: i32 = 2;

/// Side of one grid cell, in pixels, for the fixed grid.
pub const FIXED_CELL_SIZE: i32 = 32;

/// Thickness of the grid lines, in pixels, for the fixed grid.
pub const FIXED_LINE_WIDTH: i32 = 3;

/// Horizontal pixel offset that the fixed grid starts with.
pub const FIXED_OFFSET_X: i64 = -70;

/// Vertical pixel offset that the fixed grid starts with.
pub const FIXED_OFFSET_Y: i64 = 120;

/// The uniform block read by the grid shader.
///
/// The shader adds `offset` to the fragment position, reduces it modulo
/// `cell_size`, and paints `grid_color` inside a band of `line_width` pixels
/// and `background_color` elsewhere.
#[derive(Clone, Copy, Debug, PartialEq, Eq, Structural)]
pub struct GridMaterial {
    pub grid_color: Rgb,
    pub background_color: Rgb,
    pub cell_size: i32,
    pub line_width: i32,
    pub offset: Point,
}

/// Colour of the grid lines (#454138).
pub open spec fn line_rgb() -> Rgb {
    Rgb { r: 0x45, g: 0x41, b: 0x38 }
}

/// Colour between the grid lines, also used to clear the window (#dcd8c0).
pub open spec fn paper_rgb() -> Rgb {
    Rgb { r: 0xdc, g: 0xd8, b: 0xc0 }
}

impl GridMaterial {
    /// Colour of the grid lines.
    pub fn line_color() -> (c: Rgb)
        ensures
            c == line_rgb(),
    {
        Rgb::new(0x45, 0x41, 0x38)
    }

    /// Colour behind the grid lines.
    pub fn paper_color() -> (c: Rgb)
        ensures
            c == paper_rgb(),
    {
        Rgb::new(0xdc, 0xd8, 0xc0)
    }

    /// The material of the grid that follows mouse panning: 16 pixel cells,
    /// 2 pixel lines, no offset.
    pub fn pannable() -> (m: GridMaterial)
        ensures
            m.grid_color == line_rgb(),
            m.background_color == paper_rgb(),
            m.cell_size == 16,
            m.line_width == 2,
            m.offset == (Point { x: 0, y: 0 }),
    {
        GridMaterial {
            grid_color: Self::line_color(),
            background_color: Self::paper_color(),
            cell_size: PANNABLE_CELL_SIZE,
            line_width: PANNABLE_LINE_WIDTH,
            offset: Point::new(0, 0),
        }
    }

    /// The material of the static grid: 32 pixel cells, 3 pixel lines,
    /// shifted by (-70, 120) pixels.
    pub fn fixed() -> (m: GridMaterial)
        ensures
            m.grid_color == line_rgb(),
            m.background_color == paper_rgb(),
            m.cell_size == 32,
            m.line_width == 3,
            m.offset.x == -70,
            m.offset.y == 120,
    {
        GridMaterial {
            grid_color: Self::line_color(),
            background_color: Self::paper_color(),
            cell_size: FIXED_CELL_SIZE,
            line_width: FIXED_LINE_WIDTH,
            offset: Point::new(FIXED_OFFSET_X, FIXED_OFFSET_Y),
        }
    }
}

} // verus!
