//! Host-side logic of a small real-time renderer: the frame clock, the
//! lifecycle of the display surface, mesh index data, and the projection
//! strategies a camera can be built with.

use vstd::prelude::*;

pub mod camera;
pub mod mesh;
pub mod render;
pub mod time;

verus! {

/// Something the application loop starts once and then updates every frame.
pub trait Entity {
    fn start(&mut self);

    fn update(&mut self);
}

} // verus!
