//! Integer grid coordinates shared by the map, the cursor and the chain.

use vstd::prelude::*;

verus! {

/// Coordinate that lies outside every playable grid; it stands for "no tile".
pub const OFF_GRID: i64 = -1000;

/// A logical grid coordinate (not pixels). Tiles on screen (the player, the
/// cursor, the chain) are `(column, row)`, rows counted from the top; a
/// `GameMap` addresses its cells `(row, column)`, see `transposed`.
#[derive(Clone, Copy, Debug, PartialEq, Eq, Structural, Hash)]
pub struct TilePos {
    pub x: i64,
    pub y: i64,
}

impl TilePos {
    pub fn new(x: i64, y: i64) -> (r: TilePos)
        ensures
            r.x == x,
            r.y == y,
    {
        TilePos { x, y }
    }

    /// The coordinate with `x` and `y` swapped: a screen tile's map cell, or
    /// a map cell's screen tile.
    pub open spec fn spec_transposed(self) -> TilePos {
        TilePos { x: self.y, y: self.x }
    }

    pub fn transposed(&self) -> (r: TilePos)
        ensures
            r == self.spec_transposed(),
    {
        TilePos { x: self.y, y: self.x }
    }

    /// The "no tile" coordinate `(OFF_GRID, OFF_GRID)`.
    pub open spec fn spec_off_grid() -> TilePos {
        TilePos { x: OFF_GRID, y: OFF_GRID }
    }

    /// The "no tile" coordinate `(OFF_GRID, OFF_GRID)`.
    pub fn off_grid() -> (r: TilePos)
        ensures
            r == TilePos::spec_off_grid(),
    {
        TilePos { x: OFF_GRID, y: OFF_GRID }
    }
}

} // verus!
