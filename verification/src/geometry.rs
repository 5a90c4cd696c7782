//! Frontend-neutral rectangles.

use vstd::prelude::*;

verus! {

/// A rectangle in terminal cells.
#[derive(Clone, Copy, Debug, PartialEq, Eq, Structural)]
pub struct ViewportRect {
    pub height: u16,
    pub width: u16,
    pub x: u16,
    pub y: u16,
}

impl ViewportRect {
    /// The rectangle at `(x, y)`, cut off where cell positions end.
    pub open spec fn at(x: u16, y: u16, width: u16, height: u16) -> ViewportRect {
        ViewportRect {
            height: if y + height > u16::MAX {
                (u16::MAX - y) as u16
            } else {
                height
            },
            width: if x + width > u16::MAX {
                (u16::MAX - x) as u16
            } else {
                width
            },
            x,
            y,
        }
    }

    /// Builds the rectangle at `(x, y)`, cut off where cell positions end.
    pub fn new(x: u16, y: u16, width: u16, height: u16) -> (rect: ViewportRect)
        ensures
            rect == ViewportRect::at(x, y, width, height),
    {
        ViewportRect {
            height: y.saturating_add(height) - y,
            width: x.saturating_add(width) - x,
            x,
            y,
        }
    }

    /// Whether the cell at `(column, row)` lies inside the rectangle.
    pub open spec fn has_cell(self, column: int, row: int) -> bool {
        &&& self.x <= column < self.x + self.width
        &&& self.y <= row < self.y + self.height
    }

    /// Reports whether the cell at `(column, row)` lies inside the rectangle.
    pub fn contains(&self, column: u16, row: u16) -> (inside: bool)
        ensures
            inside == self.has_cell(column as int, row as int),
    {
        column >= self.x && row >= self.y && column - self.x < self.width && row - self.y
            < self.height
    }
}

} // verus!
