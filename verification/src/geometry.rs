//! Rectangles of terminal cells.

use vstd::prelude::*;

verus! {

/// Which way a split runs: side by side, or one above the other.
#[derive(Debug, Clone, Copy, PartialEq, Eq, Structural)]
pub enum Direction {
    Horizontal,
    Vertical,
}

/// A rectangle of cells: its top-left corner and its size.
#[derive(Debug, Clone, Copy, PartialEq, Eq, Structural)]
pub struct Rect {
    pub x: u16,
    pub y: u16,
    pub width: u16,
    pub height: u16,
}

/// `length` cut off where `start + length` would leave the coordinates.
pub open spec fn clipped(start: nat, length: nat) -> nat {
    if start + length > 65535 {
        (65535 - start) as nat
    } else {
        length
    }
}

pub open spec fn rect_new(x: u16, y: u16, width: u16, height: u16) -> Rect {
    Rect {
        x,
        y,
        width: clipped(x as nat, width as nat) as u16,
        height: clipped(y as nat, height as nat) as u16,
    }
}

/// A rectangle keeps its corner and is cut only where it would leave the
/// coordinates.
pub proof fn law_rect_cut_at_edge(x: u16, y: u16, width: u16, height: u16)
    ensures
        ({
            let rect = rect_new(x, y, width, height);
            &&& rect.x == x && rect.y == y
            &&& rect.x + rect.width <= 65535 && rect.y + rect.height <= 65535
            &&& x + width <= 65535 ==> rect.width == width
            &&& x + width > 65535 ==> rect.x + rect.width == 65535
            &&& y + height <= 65535 ==> rect.height == height
            &&& y + height > 65535 ==> rect.y + rect.height == 65535
        }),
{
}

impl Rect {
    /// Whether the far edges are coordinates too.
    pub open spec fn fits(self) -> bool {
        self.x + self.width <= 65535 && self.y + self.height <= 65535
    }

    /// Whether the cell in `column` and `row` is in the rectangle.
    pub open spec fn covers(self, column: int, row: int) -> bool {
        self.x <= column < self.x + self.width && self.y <= row < self.y + self.height
    }

    /// A rectangle at `x`, `y`, cut off where it would leave the coordinates.
    pub fn new(x: u16, y: u16, width: u16, height: u16) -> (r: Rect)
        ensures
            r == rect_new(x, y, width, height),
            r.fits(),
    {
        Rect { x, y, width: x.saturating_add(width) - x, height: y.saturating_add(height) - y }
    }
}

} // verus!
