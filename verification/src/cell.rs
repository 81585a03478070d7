use vstd::prelude::*;

verus! {

/// One unit of the render grid: background, lit pixel, or the reserved index value.
#[derive(Clone, Copy, Debug, PartialEq, Eq, Structural)]
pub enum Cell {
    Empty,
    Filled,
    Index,
}

/// The cell a raw mask byte encodes.  Bytes above 2 are not valid cell encodings;
/// masks are checked at the sprite boundary, so this spec maps them to `Index`
/// only to stay total.
pub open spec fn spec_cell_of(value: u8) -> Cell {
    if value == 0 {
        Cell::Empty
    } else if value == 1 {
        Cell::Filled
    } else {
        Cell::Index
    }
}

impl Cell {
    /// Decodes a raw mask byte.  A byte outside the three encoded values is a fatal
    /// decode error with no recovery path, so such inputs are excluded up front.
    pub fn from_u8(value: u8) -> (c: Cell)
        requires
            value <= 2,
        ensures
            c == spec_cell_of(value),
    {
        match value {
            0 => Cell::Empty,
            1 => Cell::Filled,
            _ => Cell::Index,
        }
    }
}

} // verus!
