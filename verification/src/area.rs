//! Rectangles of terminal cells.

use vstd::prelude::*;

verus! {

/// A rectangle of cells: its top left corner and its size.
#[derive(Clone, Copy, Debug, PartialEq, Eq, Structural)]
pub struct Area {
    pub x: u16,
    pub y: u16,
    pub width: u16,
    pub height: u16,
}

/// The direction in which a rectangle is cut into parts.
#[derive(Clone, Copy, Debug, PartialEq, Eq, Structural)]
pub enum Axis {
    /// The parts lie beside each other.
    Horizontal,
    /// The parts lie below each other.
    Vertical,
}

/// The smaller of two coordinates.
pub open spec fn lesser(a: int, b: int) -> int {
    if a <= b {
        a
    } else {
        b
    }
}

/// The larger of two coordinates.
pub open spec fn greater(a: int, b: int) -> int {
    if a >= b {
        a
    } else {
        b
    }
}

impl Area {
    /// The rectangle holds no cell.
    pub open spec fn is_empty(self) -> bool {
        self.width == 0 || self.height == 0
    }

    /// The column right of the last one, kept inside the range of coordinates.
    pub open spec fn right(self) -> int {
        lesser(self.x + self.width, u16::MAX as int)
    }

    /// The row below the last one, kept inside the range of coordinates.
    pub open spec fn bottom(self) -> int {
        lesser(self.y + self.height, u16::MAX as int)
    }

    /// No coordinate of the rectangle leaves the range of `u16`.
    pub open spec fn is_bounded(self) -> bool {
        self.x + self.width <= u16::MAX && self.y + self.height <= u16::MAX
    }

    /// Every cell of `self` is a cell of `outer`.
    pub open spec fn within(self, outer: Area) -> bool {
        &&& outer.x <= self.x
        &&& outer.y <= self.y
        &&& self.x + self.width <= outer.x + outer.width
        &&& self.y + self.height <= outer.y + outer.height
    }

    /// The part that `self` and `other` share. Where they share no cell the
    /// result is empty.
    pub open spec fn intersection(self, other: Area) -> Area {
        let x1 = greater(self.x as int, other.x as int);
        let y1 = greater(self.y as int, other.y as int);
        let x2 = lesser(self.right(), other.right());
        let y2 = lesser(self.bottom(), other.bottom());
        Area {
            x: x1 as u16,
            y: y1 as u16,
            width: greater(x2 - x1, 0) as u16,
            height: greater(y2 - y1, 0) as u16,
        }
    }

    /// A rectangle from its corner and its size.
    pub fn new(x: u16, y: u16, width: u16, height: u16) -> (area: Area)
        ensures
            area == (Area { x, y, width, height }),
    {
        Area { x, y, width, height }
    }

    /// Cuts `self` down to what lies inside `bounds`.
    pub fn clip(&self, bounds: &Area) -> (part: Area)
        ensures
            part == self.intersection(*bounds),
            bounds.is_bounded() ==> part.is_empty() || part.within(*bounds),
            self.within(*bounds) && self.is_bounded() ==> part == *self,
    {
        let x1 = if self.x >= bounds.x { self.x } else { bounds.x };
        let y1 = if self.y >= bounds.y { self.y } else { bounds.y };
        let right_a = self.x.saturating_add(self.width);
        let right_b = bounds.x.saturating_add(bounds.width);
        let bottom_a = self.y.saturating_add(self.height);
        let bottom_b = bounds.y.saturating_add(bounds.height);
        let x2 = if right_a <= right_b { right_a } else { right_b };
        let y2 = if bottom_a <= bottom_b { bottom_a } else { bottom_b };
        Area { x: x1, y: y1, width: x2.saturating_sub(x1), height: y2.saturating_sub(y1) }
    }
}

} // verus!
