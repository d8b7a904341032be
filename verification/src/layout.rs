//! Terminal geometry handed to widgets while rendering: the screen size and
//! the running offsets of the line being drawn.

use vstd::prelude::*;

verus! {

/// A terminal size in columns and rows.
#[derive(Clone, Copy, Debug, PartialEq, Eq, Structural)]
pub struct Size {
    pub width: u16,
    pub height: u16,
}

impl Size {
    pub fn new(width: u16, height: u16) -> (r: Self)
        ensures
            r == (Size { width, height }),
    {
        Size { width, height }
    }
}

impl From<(u16, u16)> for Size {
    fn from(s: (u16, u16)) -> (r: Self) {
        Size { width: s.0, height: s.1 }
    }
}

impl vstd::std_specs::convert::FromSpecImpl<(u16, u16)> for Size {
    open spec fn obeys_from_spec() -> bool {
        true
    }

    open spec fn from_spec(s: (u16, u16)) -> Size {
        Size { width: s.0, height: s.1 }
    }
}

/// The rendering position within the terminal: how far along the current
/// line the cursor already is, the offset of the drawing region, and its
/// size.
#[derive(Clone, Copy, Debug, PartialEq, Eq, Structural)]
pub struct Layout {
    /// Columns already used on the current line.
    pub line_offset: u16,
    pub offset_x: u16,
    pub offset_y: u16,
    pub width: u16,
    pub height: u16,
}

impl Layout {
    pub fn new(line_offset: u16, size: Size) -> (r: Self)
        ensures
            r == (Layout {
                line_offset,
                offset_x: 0,
                offset_y: 0,
                width: size.width,
                height: size.height,
            }),
    {
        Layout { line_offset, offset_x: 0, offset_y: 0, width: size.width, height: size.height }
    }

    /// The same layout with a different line offset.
    pub fn with_line_offset(self, line_offset: u16) -> (r: Self)
        ensures
            r == (Layout { line_offset, ..self }),
    {
        Layout { line_offset, ..self }
    }
}

} // verus!
