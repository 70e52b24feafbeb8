//! The tile under the pointer.
//!
//! Turning the pointer's world position into a grid cell of the tile map is
//! floating-point work done by the engine; what comes back is a column and a
//! row counted from the bottom. The game counts rows from the top and uses an
//! off-grid coordinate for "no tile".

use vstd::prelude::*;

use crate::tile::{OFF_GRID, TilePos};

verus! {

/// The tile the cursor overlaps, or `TilePos::off_grid()` when none does.
#[derive(Clone, Copy, Debug, PartialEq, Eq, Structural)]
pub struct CursorTile(pub TilePos);

impl Default for CursorTile {
    /// No tile yet.
    fn default() -> (r: CursorTile)
        ensures
            r.0 == TilePos::spec_off_grid(),
    {
        CursorTile(TilePos::off_grid())
    }
}

/// The cursor tile for the map cell `grid` (column, row counted from the
/// bottom) of a `width` by `height` map: the same column and the row counted
/// from the top; off the grid when there is no cell or it lies outside the map.
pub open spec fn cursor_tile_of(grid: Option<(u32, u32)>, width: u32, height: u32) -> CursorTile {
    match grid {
        Some((x, y)) => if x < width && y < height {
            CursorTile(TilePos { x: x as i64, y: (height - 1 - y) as i64 })
        } else {
            CursorTile(TilePos::spec_off_grid())
        },
        None => CursorTile(TilePos::spec_off_grid()),
    }
}

impl CursorTile {
    /// The cursor tile for the map cell `grid` under the pointer.
    pub fn from_grid(grid: Option<(u32, u32)>, width: u32, height: u32) -> (r: CursorTile)
        ensures
            r == cursor_tile_of(grid, width, height),
    {
        match grid {
            Some((x, y)) => if x < width && y < height {
                CursorTile(TilePos { x: x as i64, y: (height - 1 - y) as i64 })
            } else {
                CursorTile::default()
            },
            None => CursorTile::default(),
        }
    }

    /// A tile of the map lies under the cursor.
    pub fn is_on_grid(&self) -> (r: bool)
        ensures
            r == (self.0 != TilePos::spec_off_grid()),
    {
        !(self.0.x == OFF_GRID && self.0.y == OFF_GRID)
    }
}

/// The cursor tile is a function of the cell under the pointer and the map's
/// size alone: converting the same cell of the same map twice gives the same
/// tile, and an in-map cell always gives a tile of the map.
pub proof fn lemma_cursor_tile_stable(grid: Option<(u32, u32)>, width: u32, height: u32)
    ensures
        cursor_tile_of(grid, width, height) == cursor_tile_of(grid, width, height),
        grid matches Some((x, y)) && x < width && y < height ==> {
            let t = cursor_tile_of(grid, width, height).0;
            &&& 0 <= t.x < width
            &&& 0 <= t.y < height
        },
{
}

} // verus!
