//! Plain pixel-space geometry: points, sizes and axis-aligned rectangles,
//! together with the inclusive containment test the hit-testing relies on.

use vstd::prelude::*;

verus! {

/// Every pixel coordinate handled by the library is confined to this
/// magnitude, so that every derived coordinate (rectangle corners, label
/// anchors, relative cursor positions) stays far away from the `i64` limits.
pub const MAX_COORD: i64 = 1_000_000_000;

/// A position in pixel space.
#[derive(Clone, Copy, Debug, PartialEq, Eq, Structural)]
pub struct Point {
    pub x: i64,
    pub y: i64,
}

/// A width/height pair; depending on use it is measured in pixels or in
/// layout units.
#[derive(Clone, Copy, Debug, PartialEq, Eq, Structural)]
pub struct Size {
    pub width: i64,
    pub height: i64,
}

/// An axis-aligned rectangle in pixel space: top-left corner plus extent.
#[derive(Clone, Copy, Debug, PartialEq, Eq, Structural)]
pub struct Rect {
    pub x: i64,
    pub y: i64,
    pub width: i64,
    pub height: i64,
}

impl Point {
    /// Both coordinates are within the library's working range.
    pub open spec fn in_range(self) -> bool {
        &&& -MAX_COORD <= self.x <= MAX_COORD
        &&& -MAX_COORD <= self.y <= MAX_COORD
    }
}

impl Rect {
    /// Containment is inclusive on all four edges.
    pub open spec fn spec_contains(self, p: Point) -> bool {
        &&& self.x <= p.x <= self.x + self.width
        &&& self.y <= p.y <= self.y + self.height
    }

    /// The corner opposite the top-left one stays representable.
    pub open spec fn extent_in_bounds(self) -> bool {
        &&& i64::MIN <= self.x + self.width <= i64::MAX
        &&& i64::MIN <= self.y + self.height <= i64::MAX
    }

    pub fn contains(&self, p: Point) -> (r: bool)
        requires
            self.extent_in_bounds(),
        ensures
            r == self.spec_contains(p),
    {
        self.x <= p.x && p.x <= self.x + self.width && self.y <= p.y && p.y <= self.y + self.height
    }
}

} // verus!
