use vstd::prelude::*;

verus! {

/// Caps a mathematical value at the largest machine integer, mirroring
/// saturating arithmetic on `usize`.
pub open spec fn cap_usize(x: int) -> int {
    if x > usize::MAX {
        usize::MAX as int
    } else {
        x
    }
}

/// A rectangle of terminal cells: the viewport's dimensions.
#[derive(Clone, Copy, Debug, PartialEq, Eq)]
pub struct Size {
    pub height: usize,
    pub width: usize,
}

impl Default for Size {
    fn default() -> (s: Self)
        ensures
            s.height == 0,
            s.width == 0,
    {
        Size { height: 0, width: 0 }
    }
}

/// A physical cell coordinate: a row and a column of the screen, or of
/// the document's rendered grid.
#[derive(Clone, Copy, Debug, PartialEq, Eq)]
pub struct Position {
    pub col: usize,
    pub row: usize,
}

impl Position {
    /// Component-wise difference, clamped at zero.
    pub fn saturating_sub(&self, other: Self) -> (r: Self)
        ensures
            r.row == if self.row >= other.row { self.row - other.row } else { 0 },
            r.col == if self.col >= other.col { self.col - other.col } else { 0 },
    {
        Position { row: self.row.saturating_sub(other.row), col: self.col.saturating_sub(other.col) }
    }
}

impl Default for Position {
    fn default() -> (p: Self)
        ensures
            p.col == 0,
            p.row == 0,
    {
        Position { col: 0, row: 0 }
    }
}

/// A logical cursor position in document coordinates: a line index and a
/// grapheme index within that line. Not a screen position.
#[derive(Clone, Copy, Debug, PartialEq, Eq)]
pub struct Location {
    pub grapheme_index: usize,
    pub line_index: usize,
}

impl Default for Location {
    fn default() -> (l: Self)
        ensures
            l.grapheme_index == 0,
            l.line_index == 0,
    {
        Location { grapheme_index: 0, line_index: 0 }
    }
}

} // verus!
