//! Integer pixel geometry: bounding boxes used for hit-testing, thumb
//! positioning and the dirty-region handed to the render collaborator.
use vstd::prelude::*;

verus! {

/// Coordinates and sizes are kept within this bound so that the arithmetic
/// done on them (sums, differences, scaled divisions) stays well inside `i64`.
pub const COORD_MAX: i64 = 0x4000_0000;

/// An axis-aligned rectangle in integer pixels.
#[derive(Clone, Copy, PartialEq, Eq, Structural, Debug)]
pub struct BoundingBox {
    pub x: i64,
    pub y: i64,
    pub w: i64,
    pub h: i64,
}

impl BoundingBox {
    /// A box is well formed when its origin and extent are non-negative and
    /// within [`COORD_MAX`].
    pub open spec fn wf(self) -> bool {
        0 <= self.x <= COORD_MAX && 0 <= self.y <= COORD_MAX && 0 <= self.w <= COORD_MAX && 0
            <= self.h <= COORD_MAX
    }

    /// Whether the point `(px, py)` lies inside the box (right and bottom
    /// edges excluded).
    pub open spec fn contains_spec(self, px: int, py: int) -> bool {
        self.x <= px < self.x + self.w && self.y <= py < self.y + self.h
    }

    /// The all-zero box, used as the geometry of an entity before layout ran.
    pub fn zero() -> (r: BoundingBox)
        ensures
            r == (BoundingBox { x: 0, y: 0, w: 0, h: 0 }),
    {
        BoundingBox { x: 0, y: 0, w: 0, h: 0 }
    }

    /// Point-in-box test used by hit-testing.
    pub fn contains(&self, px: i64, py: i64) -> (r: bool)
        requires
            self.wf(),
            -COORD_MAX <= px <= COORD_MAX,
            -COORD_MAX <= py <= COORD_MAX,
        ensures
            r == self.contains_spec(px as int, py as int),
    {
        self.x <= px && px < self.x + self.w && self.y <= py && py < self.y + self.h
    }

    /// A looser bound than [`BoundingBox::wf`] under which unions stay closed:
    /// non-negative origin and corners within twice [`COORD_MAX`].
    pub open spec fn corners_ok(self) -> bool {
        0 <= self.x && 0 <= self.y && 0 <= self.w && 0 <= self.h && self.x + self.w <= 2
            * COORD_MAX && self.y + self.h <= 2 * COORD_MAX
    }

    /// The smallest box containing both `a` and `b`.
    pub open spec fn union_spec(a: BoundingBox, b: BoundingBox) -> BoundingBox {
        let x = if a.x <= b.x {
            a.x
        } else {
            b.x
        };
        let y = if a.y <= b.y {
            a.y
        } else {
            b.y
        };
        let right = if a.x + a.w >= b.x + b.w {
            a.x + a.w
        } else {
            b.x + b.w
        };
        let bottom = if a.y + a.h >= b.y + b.h {
            a.y + a.h
        } else {
            b.y + b.h
        };
        BoundingBox { x, y, w: (right - x) as i64, h: (bottom - y) as i64 }
    }

    /// The smallest box containing both `self` and `other`; the dirty region
    /// accumulates changed areas with this.
    pub fn union(&self, other: &BoundingBox) -> (r: BoundingBox)
        requires
            self.corners_ok(),
            other.corners_ok(),
        ensures
            r == BoundingBox::union_spec(*self, *other),
            r.corners_ok(),
            r.x == if self.x <= other.x {
                self.x
            } else {
                other.x
            },
            r.y == if self.y <= other.y {
                self.y
            } else {
                other.y
            },
            r.x + r.w == if self.x + self.w >= other.x + other.w {
                self.x + self.w
            } else {
                other.x + other.w
            },
            r.y + r.h == if self.y + self.h >= other.y + other.h {
                self.y + self.h
            } else {
                other.y + other.h
            },
    {
        let x: i64 = if self.x <= other.x {
            self.x
        } else {
            other.x
        };
        let y: i64 = if self.y <= other.y {
            self.y
        } else {
            other.y
        };
        let right: i64 = if self.x + self.w >= other.x + other.w {
            self.x + self.w
        } else {
            other.x + other.w
        };
        let bottom: i64 = if self.y + self.h >= other.y + other.h {
            self.y + self.h
        } else {
            other.y + other.h
        };
        BoundingBox { x, y, w: right - x, h: bottom - y }
    }
}

} // verus!
