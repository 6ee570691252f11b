//! The scrolling camera: a zoom and a world-space position that the
//! tick keeps clamped over the hero.

use vstd::prelude::*;

use crate::entity::{WorldPoint2, WorldVector2};

verus! {

/// A 2D camera. Zoom is in thousandths: 1000 draws at natural size.
#[derive(Clone, Copy, Debug, PartialEq, Eq, Structural)]
pub struct Camera2 {
    pub zoom: i64,
    pub position: WorldPoint2,
    pub velocity: WorldVector2,
}

impl Camera2 {
    /// A still camera at the origin, at natural zoom.
    pub fn new() -> (r: Camera2)
        ensures
            r.zoom == 1000,
            r.position == (WorldPoint2 { x: 0, y: 0 }),
            r.velocity == (WorldVector2 { x: 0, y: 0 }),
    {
        Camera2 {
            zoom: 1000,
            position: WorldPoint2::new(0, 0),
            velocity: WorldVector2::new(0, 0),
        }
    }
}

} // verus!
