//! Rectangles of terminal cells.

use vstd::prelude::*;

verus! {

/// A rectangle on the terminal: its top-left cell and its size in cells.
#[derive(Clone, Copy, Debug, PartialEq, Eq, Structural)]
pub struct Rect {
    pub x: u16,
    pub y: u16,
    pub width: u16,
    pub height: u16,
}

/// The cells of one row of text inside a bordered pane of the given
/// rectangle: its width less the two border columns, and never less than one.
pub open spec fn content_width_of(area: Rect) -> nat {
    if area.width <= 3 {
        1
    } else {
        (area.width - 2) as nat
    }
}

/// The wrap width of a bordered pane. The renderer wraps at this width, and
/// the cursor is projected with it.
pub fn content_width(area: Rect) -> (width: usize)
    ensures
        width == content_width_of(area),
        width >= 1,
{
    if area.width <= 3 {
        1
    } else {
        (area.width - 2) as usize
    }
}

} // verus!
