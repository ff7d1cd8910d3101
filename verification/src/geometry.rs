//! The play area and the axis-aligned shapes the rules are stated over.

use vstd::prelude::*;

verus! {

/// Size of the play area.
#[derive(Clone, Copy, Debug, PartialEq, Eq, Structural)]
pub struct Viewport {
    pub width: u32,
    pub height: u32,
}

/// An axis-aligned rectangle, given by its top-left corner and its size.
pub struct Rect {
    pub x: int,
    pub y: int,
    pub width: int,
    pub height: int,
}

impl Rect {
    /// The x coordinate of the right edge.
    pub open spec fn right(self) -> int {
        self.x + self.width
    }

    /// The y coordinate of the bottom edge.
    pub open spec fn bottom(self) -> int {
        self.y + self.height
    }

    /// Two rectangles overlap when they share at least one point; touching
    /// edges count.
    pub open spec fn overlaps(self, other: Rect) -> bool {
        &&& other.right() >= self.x
        &&& other.x <= self.right()
        &&& other.bottom() >= self.y
        &&& other.y <= self.bottom()
    }

    /// Whether the point `(x, y)` lies in the rectangle, edges included.
    pub open spec fn contains(self, x: int, y: int) -> bool {
        self.x <= x <= self.right() && self.y <= y <= self.bottom()
    }
}

/// A circle, given by its centre and its radius.
pub struct Circle {
    pub x: int,
    pub y: int,
    pub radius: int,
}

impl Circle {
    /// The smallest axis-aligned square that holds the circle.
    pub open spec fn bounding_box(self) -> Rect {
        Rect {
            x: self.x - self.radius,
            y: self.y - self.radius,
            width: 2 * self.radius,
            height: 2 * self.radius,
        }
    }
}

/// Overlap is symmetric, and means exactly that some point lies in both
/// rectangles.
pub proof fn overlap_is_a_shared_point(a: Rect, b: Rect)
    requires
        a.width >= 0,
        a.height >= 0,
        b.width >= 0,
        b.height >= 0,
    ensures
        a.overlaps(b) == b.overlaps(a),
        a.overlaps(b) <==> exists|x: int, y: int| #[trigger] a.contains(x, y) && b.contains(x, y),
{
    if a.overlaps(b) {
        let x = if a.x >= b.x { a.x } else { b.x };
        let y = if a.y >= b.y { a.y } else { b.y };
        assert(a.contains(x, y) && b.contains(x, y));
    }
}

} // verus!
