//! The projection strategies a camera is built with.
//!
//! A strategy is chosen once, when the camera is made, and fixed for its
//! lifetime. Both look along the camera's forward direction from its
//! position; they differ in how view space is mapped to clip space.

use vstd::prelude::*;

verus! {

/// Right-handed orthographic projection with symmetric bounds on both axes.
#[derive(Clone, Copy, Debug, Default, PartialEq, Eq, Structural)]
pub struct Orthographic;

/// Right-handed perspective projection over the camera's full vertical field
/// of view and aspect ratio.
#[derive(Clone, Copy, Debug, Default, PartialEq, Eq, Structural)]
pub struct Perspective;

} // verus!
