//! Screen regions as plain values.

use vstd::prelude::*;

verus! {

/// A rectangular region of the screen, by its top left corner and its size.
#[derive(Debug, Clone, Copy, PartialEq, Eq, Hash, Structural)]
pub struct Rect {
    pub x: u16,
    pub y: u16,
    pub width: u16,
    pub height: u16,
}

/// One cell of the screen.
#[derive(Debug, Clone, Copy, PartialEq, Eq, Hash, Structural)]
pub struct Position {
    pub x: u16,
    pub y: u16,
}

impl Rect {
    /// The region at `(x, y)` that is `width` wide and `height` high.
    pub fn new(x: u16, y: u16, width: u16, height: u16) -> (rect: Self)
        ensures
            rect == (Rect { x, y, width, height }),
    {
        Rect { x, y, width, height }
    }
}

impl Position {
    /// The cell in column `x` of row `y`.
    pub fn new(x: u16, y: u16) -> (position: Self)
        ensures
            position == (Position { x, y }),
    {
        Position { x, y }
    }
}


/// The region for a paragraph of `estimated_lines` lines within `area`: as
/// wide as the area, two rows higher than the lines for the border, but no
/// higher than the area, and centred between its top and its bottom.
pub open spec fn spec_center_area(area: Rect, estimated_lines: int) -> Rect {
    let paragraph_height = estimated_lines + 2;
    let spare = if area.height >= paragraph_height {
        area.height - paragraph_height
    } else {
        0
    };
    Rect {
        x: area.x,
        y: (area.y + spare / 2) as u16,
        width: area.width,
        height: if paragraph_height < area.height {
            paragraph_height as u16
        } else {
            area.height
        },
    }
}

/// The region for a paragraph of `estimated_lines` lines within `area`.
pub fn center_area(area: Rect, estimated_lines: usize) -> (centered: Rect)
    requires
        estimated_lines + 2 <= u16::MAX,
        area.y + area.height <= u16::MAX,
    ensures
        centered == spec_center_area(area, estimated_lines as int),
        centered.y >= area.y,
        centered.y + centered.height <= area.y + area.height,
{
    let paragraph_height: u16 = estimated_lines as u16 + 2;
    let spare: u16 = if area.height >= paragraph_height {
        area.height - paragraph_height
    } else {
        0
    };
    let y_offset: u16 = area.y + spare / 2;
    Rect {
        x: area.x,
        y: y_offset,
        width: area.width,
        height: if paragraph_height < area.height {
            paragraph_height
        } else {
            area.height
        },
    }
}

} // verus!
