use vstd::prelude::*;

use crate::material::GridMaterial;

verus! {

/// An entity to create at startup.
#[derive(Clone, Copy, Debug, PartialEq, Eq, Structural)]
pub enum Spawn {
    /// The 2D camera.
    Camera,
    /// The quad that covers the window, drawn with the given grid material.
    Grid(GridMaterial),
    /// A small solid rectangle at the world origin, above the grid, that
    /// shows the view moving.
    Marker,
}

/// What startup creates: without a primary window nothing at all (the quad
/// is sized after the window); with one, the camera, the grid quad with
/// `material`, and the marker, in that order.
pub fn setup_spawns(material: GridMaterial, window_present: bool) -> (r: Vec<Spawn>)
    ensures
        !window_present ==> r@.len() == 0,
        window_present ==> r@ == seq![Spawn::Camera, Spawn::Grid(material), Spawn::Marker],
{
    let mut spawns: Vec<Spawn> = Vec::new();
    if !window_present {
        return spawns;
    }
    spawns.push(Spawn::Camera);
    spawns.push(Spawn::Grid(material));
    spawns.push(Spawn::Marker);
    assert(spawns@ =~= seq![Spawn::Camera, Spawn::Grid(material), Spawn::Marker]);
    spawns
}

} // verus!
