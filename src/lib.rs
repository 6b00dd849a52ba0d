//! Pan-and-offset bookkeeping for a procedural grid background.
//!
//! A grid is drawn by a fragment shader that reads a small uniform block
//! (colours, cell size, line width and a pixel offset). While a pan button is
//! dragged, the camera and the grid quad move by the same world-space delta and
//! the shader offset moves by the raw pixel delta, so the pattern scrolls
//! without seams. This crate holds the per-frame decisions and the uniform
//! state; projecting pixels into the world is left to the rendering engine.

mod geometry;
pub mod laws;
mod material;
pub mod pan;
mod setup;

pub use geometry::{Point, Rgb, WindowPos};
pub use material::GridMaterial;
pub use pan::{ButtonState, CursorIcon, PanAction, PanController};
pub use setup::{setup_spawns, Spawn};
