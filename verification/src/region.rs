//! Axis-aligned rectangles in terminal cell coordinates.
use vstd::prelude::*;

verus! {

/// A rectangular screen region: `x`/`y` is the top-left cell, `width` and
/// `height` count cells to the right and downwards. A region is opaque to the
/// interaction engine beyond containment testing of a point.
#[derive(Clone, Copy, PartialEq, Eq, Structural, Debug)]
pub struct Region {
    pub x: u16,
    pub y: u16,
    pub width: u16,
    pub height: u16,
}

impl Region {
    /// Whether the point `(px, py)` lies inside this region, in mathematical
    /// (unbounded) coordinates.
    pub open spec fn spec_contains(self, px: u16, py: u16) -> bool {
        &&& self.x <= px < self.x + self.width
        &&& self.y <= py < self.y + self.height
    }

    /// Containment test for a pointer position.
    pub fn contains(&self, px: u16, py: u16) -> (r: bool)
        ensures
            r == self.spec_contains(px, py),
    {
        px >= self.x && px - self.x < self.width && py >= self.y && py - self.y < self.height
    }
}

} // verus!
