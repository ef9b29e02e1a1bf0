use vstd::prelude::*;

verus! {

/// A rectangle of terminal cells: the column and row of its top-left cell, and
/// its extent in columns and rows.
#[derive(Clone, Copy, Debug, PartialEq, Eq, Structural)]
pub struct Rect {
    pub x: u16,
    pub y: u16,
    pub width: u16,
    pub height: u16,
}

} // verus!
