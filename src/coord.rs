//! Cell coordinates and sizes.
use vstd::prelude::*;

verus! {

/// A position in character cells.
#[derive(PartialEq, Debug, Copy, Clone, Eq, Structural)]
pub struct Coord {
    /// The column.
    pub x: i16,
    /// The row.
    pub y: i16,
}

impl Coord {
    /// A coordinate from its column and row.
    pub fn new(x: i16, y: i16) -> (r: Coord)
        ensures
            r == (Coord { x, y }),
    {
        Coord { x, y }
    }
}

/// The size of a terminal window in character cells.
#[derive(PartialEq, Debug, Copy, Clone, Eq, Structural)]
pub struct Size {
    /// The number of columns.
    pub width: i16,
    /// The number of rows.
    pub height: i16,
}

impl Size {
    /// A size from its width and height.
    pub fn new(width: i16, height: i16) -> (r: Size)
        ensures
            r == (Size { width, height }),
    {
        Size { width, height }
    }
}

} // verus!
