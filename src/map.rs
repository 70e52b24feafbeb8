//! The level grid: tile classes, the player's logical position on it, and the
//! rule that keeps the player off walls.
//!
//! Cells are addressed `(x, y)` with `x` the row (counted from the top) and `y`
//! the column, stored row by row: cell `(x, y)` sits at index `x * width + y`.

use vstd::prelude::*;

use crate::tile::TilePos;

verus! {

/// Tile class of a wall: nothing may stand on it.
pub const WALL: u8 = 0;

/// Tile class of a plain floor cell, as read from a map asset.
pub const FLOOR: u8 = 1;

/// Why a map could not be built, or a lookup failed.
#[derive(Clone, Copy, Debug, PartialEq, Eq, Structural)]
pub enum MapError {
    /// The number of rows differs from the stated height.
    RowCount,
    /// Row `row` does not hold exactly `width` characters.
    RowLength { row: usize },
    /// Row `row` holds a character that is not an ASCII digit at column `col`.
    InvalidDigit { row: usize, col: usize },
    /// An asset tile lies outside the stated grid.
    TileOutOfBounds,
    /// A cell lookup outside the grid.
    OutOfBounds,
    /// The player cannot be placed on that cell: it is a wall or off the grid.
    SpawnBlocked,
}

/// Wall and floor flags of one tile of a map asset.
#[derive(Clone, Copy, Debug, PartialEq, Eq, Structural, Default)]
pub struct MapTile {
    pub is_wall: bool,
    pub is_floor: bool,
}

/// A tile of a map asset at column `x` and row `y`, rows counted from the
/// bottom as the asset counts them.
#[derive(Clone, Copy, Debug, PartialEq, Eq, Structural)]
pub struct PlacedTile {
    pub x: u32,
    pub y: u32,
    pub tile: MapTile,
}

/// The cell a map asset designates for the player to start on.
#[derive(Clone, Copy, Debug, PartialEq, Eq, Structural)]
pub struct PlayerSpawn {
    pub position: TilePos,
}

impl MapTile {
    /// Tile class of an asset tile: a floor if flagged as floor, else a wall.
    pub open spec fn spec_class(self) -> u8 {
        if self.is_floor {
            FLOOR
        } else {
            WALL
        }
    }

    pub fn class(&self) -> (r: u8)
        ensures
            r == self.spec_class(),
    {
        if self.is_floor {
            FLOOR
        } else {
            WALL
        }
    }
}

/// The mathematical content of a `GameMap`.
pub struct MapModel {
    pub width: nat,
    pub height: nat,
    pub cells: Seq<u8>,
    pub player: TilePos,
}

impl MapModel {
    /// `(x, y)` addresses a cell: row `x` below `height`, column `y` below `width`.
    pub open spec fn in_bounds(self, x: int, y: int) -> bool {
        0 <= x < self.height && 0 <= y < self.width
    }

    /// Class of the cell `(x, y)`.
    pub open spec fn cell(self, x: int, y: int) -> u8 {
        self.cells[x * self.width + y]
    }

    /// Nothing may stand on `(x, y)`: it is off the grid, or a wall.
    pub open spec fn is_wall_at(self, x: int, y: int) -> bool {
        !self.in_bounds(x, y) || self.cell(x, y) == WALL
    }

    /// The cell a move by `(dx, dy)` aims at. Only one axis moves: `dx` when it
    /// is nonzero, else `dy`.
    pub open spec fn move_target(self, dx: int, dy: int) -> (int, int) {
        if dx != 0 {
            (self.player.x + dx, self.player.y as int)
        } else {
            (self.player.x as int, self.player.y + dy)
        }
    }

    /// A move by `(dx, dy)` happens: the delta is not zero and its target is
    /// not a wall.
    pub open spec fn can_move(self, dx: int, dy: int) -> bool {
        (dx != 0 || dy != 0) && !self.is_wall_at(self.move_target(dx, dy).0, self.move_target(dx, dy).1)
    }

    /// The player's position after a move by `(dx, dy)`.
    pub open spec fn moved_player(self, dx: int, dy: int) -> TilePos {
        if self.can_move(dx, dy) {
            TilePos { x: self.move_target(dx, dy).0 as i64, y: self.move_target(dx, dy).1 as i64 }
        } else {
            self.player
        }
    }
}

/// An ASCII digit.
pub open spec fn is_digit(c: char) -> bool {
    '0' <= c <= '9'
}

/// The value of the digit `c`.
pub open spec fn digit_value(c: char) -> u8 {
    (c as u32 - '0' as u32) as u8
}

/// The digit values of `s`.
pub open spec fn digits(s: Seq<char>) -> Seq<u8> {
    s.map_values(|c: char| digit_value(c))
}

/// Index of the first non-digit of `row` at or after `j`, or `row.len()`.
pub open spec fn first_non_digit(row: Seq<char>, j: int) -> int
    decreases row.len() - j,
{
    if j >= row.len() || j < 0 {
        row.len() as int
    } else if !is_digit(row[j]) {
        j
    } else {
        first_non_digit(row, j + 1)
    }
}

/// What is wrong with row number `r`, if anything: its length first, then
/// its first non-digit.
pub open spec fn row_error(row: Seq<char>, r: int, width: nat) -> Option<MapError> {
    if row.len() != width {
        Some(MapError::RowLength { row: r as usize })
    } else if first_non_digit(row, 0) < row.len() {
        Some(MapError::InvalidDigit { row: r as usize, col: first_non_digit(row, 0) as usize })
    } else {
        None
    }
}

/// The error of the first faulty row at or after `i`, if any.
pub open spec fn rows_error(rows: Seq<Seq<char>>, width: nat, i: int) -> Option<MapError>
    decreases rows.len() - i,
{
    if i >= rows.len() || i < 0 {
        None
    } else if row_error(rows[i], i, width) is Some {
        row_error(rows[i], i, width)
    } else {
        rows_error(rows, width, i + 1)
    }
}

/// The characters of each row.
pub open spec fn rows_chars(rows: Seq<&str>) -> Seq<Seq<char>> {
    rows.map_values(|r: &str| r@)
}

/// The error that building a `width` by `height` grid from `rows` meets: a
/// wrong number of rows, else the first faulty row's.
pub open spec fn parse_error(width: nat, height: nat, rows: Seq<Seq<char>>) -> Option<MapError> {
    if rows.len() != height {
        Some(MapError::RowCount)
    } else {
        rows_error(rows, width, 0)
    }
}

/// The grid of classes that an asset's tiles describe: a wall wherever no
/// tile lies, else the class of the last tile on that cell. An asset tile at
/// column `t.x`, row `t.y` counted from the bottom, is cell
/// `(height - 1 - t.y, t.x)`.
pub open spec fn tiles_grid(width: nat, height: nat, tiles: Seq<PlacedTile>) -> Seq<u8>
    decreases tiles.len(),
{
    if tiles.len() == 0 {
        Seq::new(width * height, |k: int| WALL)
    } else {
        let t = tiles.last();
        tiles_grid(width, height, tiles.drop_last()).update(
            (height - 1 - t.y) * width + t.x,
            t.tile.spec_class(),
        )
    }
}

/// An asset tile lies on a `width` by `height` grid.
pub open spec fn tile_fits(t: PlacedTile, width: nat, height: nat) -> bool {
    t.x < width && t.y < height
}

/// A level grid with the player's logical position.
pub struct GameMap {
    width: u32,
    height: u32,
    cells: Vec<u8>,
    player_pos: TilePos,
}

impl View for GameMap {
    type V = MapModel;

    closed spec fn view(&self) -> MapModel {
        MapModel {
            width: self.width as nat,
            height: self.height as nat,
            cells: self.cells@,
            player: self.player_pos,
        }
    }
}

/// The cell index `x * width + y` of an in-bounds cell lies inside the grid.
proof fn lemma_cell_index(x: int, y: int, width: int, height: int)
    requires
        0 <= x < height,
        0 <= y < width,
    ensures
        0 <= x * width + y < width * height,
        width * height == height * width,
{
    assert(x * width <= (height - 1) * width) by (nonlinear_arith)
        requires
            0 <= x < height,
            0 <= width,
    ;
    assert((height - 1) * width + width == height * width) by (nonlinear_arith);
    assert(0 <= x * width) by (nonlinear_arith)
        requires
            0 <= x,
            0 <= width,
    ;
    assert(height * width == width * height) by (nonlinear_arith);
}

impl GameMap {
    /// Builds a `width` by `height` grid from `rows`, row `x` giving the
    /// digits of cells `(x, 0)` to `(x, width - 1)`. Fails with `RowCount` when
    /// there are not `height` rows, else with the error of the first row that
    /// is not exactly `width` ASCII digits. The player starts off the grid.
    pub fn from_rows(width: u32, height: u32, rows: &[&str]) -> (r: Result<GameMap, MapError>)
        ensures
            parse_error(width as nat, height as nat, rows_chars(rows@)) is Some ==> r == Err::<
                GameMap,
                MapError,
            >(parse_error(width as nat, height as nat, rows_chars(rows@))->0),
            parse_error(width as nat, height as nat, rows_chars(rows@)) is None ==> r is Ok,
            r matches Ok(m) ==> {
                &&& m.wf()
                &&& m@.width == width
                &&& m@.height == height
                &&& m@.player == TilePos::spec_off_grid()
                &&& m@.cells == digits(rows_chars(rows@).flatten())
                &&& forall|x: int, y: int|
                    #![trigger m@.cell(x, y)]
                    m@.in_bounds(x, y) ==> m@.cell(x, y) == digit_value(rows@[x]@[y])
            },
    {
        let ghost chars = rows_chars(rows@);
        if rows.len() != height as usize {
            return Err(MapError::RowCount);
        }
        let w = width as usize;
        let mut cells: Vec<u8> = Vec::new();
        let mut x: usize = 0;
        proof {
            assert(digits(chars.subrange(0, 0).flatten_alt()) =~= cells@);
        }
        while x < rows.len()
            invariant
                rows@.len() == height,
                w == width,
                chars == rows_chars(rows@),
                x <= rows@.len(),
                parse_error(width as nat, height as nat, chars) == rows_error(chars, width as nat, x as int),
                cells@.len() == x * w,
                cells@ == digits(chars.subrange(0, x as int).flatten_alt()),
                forall|i: int, j: int|
                    #![trigger cells@[i * w + j]]
                    0 <= i < x && 0 <= j < w ==> cells@[i * w + j] == digit_value(rows@[i]@[j]),
            decreases rows@.len() - x,
        {
            let row: &str = rows[x];
            assert(chars[x as int] == row@);
            if row.unicode_len() != w {
                return Err(MapError::RowLength { row: x });
            }
            let mut y: usize = 0;
            while y < w
                invariant
                    rows@.len() == height,
                    w == width,
                    chars == rows_chars(rows@),
                    x < rows@.len(),
                    row@ == chars[x as int],
                    row@.len() == w,
                    y <= w,
                    first_non_digit(row@, 0) == first_non_digit(row@, y as int),
                    parse_error(width as nat, height as nat, chars) == rows_error(chars, width as nat, x as int),
                    cells@.len() == x * w + y,
                    cells@ == digits(chars.subrange(0, x as int).flatten_alt()) + digits(
                        row@.subrange(0, y as int),
                    ),
                    forall|i: int, j: int|
                        #![trigger cells@[i * w + j]]
                        0 <= i < x && 0 <= j < w ==> cells@[i * w + j] == digit_value(rows@[i]@[j]),
                    forall|j: int|
                        #![trigger cells@[x * w + j]]
                        0 <= j < y ==> cells@[x * w + j] == digit_value(rows@[x as int]@[j]),
                decreases w - y,
            {
                let c = row.get_char(y);
                if !('0' <= c && c <= '9') {
                    return Err(MapError::InvalidDigit { row: x, col: y });
                }
                let ghost prev = cells@;
                cells.push(((c as u32) - ('0' as u32)) as u8);
                proof {
                    assert(digits(row@.subrange(0, y as int + 1)) =~= digits(
                        row@.subrange(0, y as int),
                    ).push(digit_value(c)));
                    assert(cells@[x * w + y] == digit_value(rows@[x as int]@[y as int]));
                    assert forall|i: int, j: int|
                        0 <= i < x && 0 <= j < w implies #[trigger] cells@[i * w + j]
                        == digit_value(rows@[i]@[j]) by {
                        lemma_cell_index(i, j, w as int, x as int);
                        assert(cells@[i * w + j] == prev[i * w + j]);
                    }
                }
                y = y + 1;
            }
            proof {
                assert((x + 1) * w == x * w + w) by (nonlinear_arith);
                let done = chars.subrange(0, x as int + 1);
                assert(done.drop_last() =~= chars.subrange(0, x as int));
                assert(row@.subrange(0, y as int) =~= row@);
                assert(digits(done.drop_last().flatten_alt() + row@) =~= digits(
                    done.drop_last().flatten_alt(),
                ) + digits(row@));
            }
            x = x + 1;
        }
        let m = GameMap { width, height, cells, player_pos: TilePos::off_grid() };
        proof {
            assert(chars.subrange(0, x as int) =~= chars);
            chars.lemma_flatten_and_flatten_alt_are_equivalent();
            assert(x * w == width as nat * height as nat) by (nonlinear_arith)
                requires
                    x == height,
                    w == width,
            ;
            assert forall|i: int, j: int| #![trigger m@.cell(i, j)]
                m@.in_bounds(i, j) implies m@.cell(i, j) == digit_value(rows@[i]@[j]) by {
                assert(cells@[i * w + j] == digit_value(rows@[i]@[j]));
            }
        }
        Ok(m)
    }

    /// Builds a `width` by `height` grid from a map asset's tiles: a cell is
    /// a wall unless a tile lies on it, and the last tile on a cell gives its
    /// class. Fails with `TileOutOfBounds` when a tile lies off the grid. The
    /// player starts off the grid.
    pub fn from_tiles(width: u32, height: u32, tiles: &[PlacedTile]) -> (r: Result<
        GameMap,
        MapError,
    >)
        requires
            width * height <= usize::MAX,
        ensures
            r is Err <==> exists|i: int|
                0 <= i < tiles@.len() && !tile_fits(#[trigger] tiles@[i], width as nat, height as nat),
            r is Err ==> r == Err::<GameMap, MapError>(MapError::TileOutOfBounds),
            r matches Ok(m) ==> {
                &&& m.wf()
                &&& m@.width == width
                &&& m@.height == height
                &&& m@.player == TilePos::spec_off_grid()
                &&& m@.cells == tiles_grid(width as nat, height as nat, tiles@)
            },
    {
        let mut k: usize = 0;
        while k < tiles.len()
            invariant
                k <= tiles@.len(),
                forall|i: int| 0 <= i < k ==> tile_fits(#[trigger] tiles@[i], width as nat, height as nat),
            decreases tiles@.len() - k,
        {
            if tiles[k].x >= width || tiles[k].y >= height {
                return Err(MapError::TileOutOfBounds);
            }
            k = k + 1;
        }
        let w = width as usize;
        let h = height as usize;
        proof {
            assert(w * h == width * height);
        }
        let n: usize = w * h;
        let mut cells: Vec<u8> = Vec::new();
        while cells.len() < n
            invariant
                cells@.len() <= n,
                forall|j: int| 0 <= j < cells@.len() ==> #[trigger] cells@[j] == WALL,
            decreases n - cells@.len(),
        {
            cells.push(WALL);
        }
        proof {
            assert(cells@ =~= tiles_grid(width as nat, height as nat, tiles@.subrange(0, 0)));
        }
        let mut k: usize = 0;
        while k < tiles.len()
            invariant
                k <= tiles@.len(),
                w == width,
                h == height,
                forall|i: int| 0 <= i < tiles@.len() ==> tile_fits(#[trigger] tiles@[i], width as nat, height as nat),
                cells@ == tiles_grid(width as nat, height as nat, tiles@.subrange(0, k as int)),
                cells@.len() == w * h,
                w * h <= usize::MAX,
            decreases tiles@.len() - k,
        {
            let t = tiles[k];
            let row = (h - 1) - (t.y as usize);
            proof {
                assert(tile_fits(tiles@[k as int], width as nat, height as nat));
                lemma_cell_index(row as int, t.x as int, w as int, h as int);
                let pre = tiles@.subrange(0, k as int + 1);
                assert(pre.drop_last() =~= tiles@.subrange(0, k as int));
                assert(pre.last() == t);
            }
            cells.set(row * w + (t.x as usize), t.tile.class());
            k = k + 1;
        }
        proof {
            assert(tiles@.subrange(0, tiles@.len() as int) =~= tiles@);
        }
        Ok(GameMap { width, height, cells, player_pos: TilePos::off_grid() })
    }

    /// Well-formed: one class per cell.
    pub closed spec fn wf(&self) -> bool {
        self.cells@.len() == self.width as nat * self.height as nat
    }

    pub fn width(&self) -> (r: u32)
        ensures
            r == self@.width,
    {
        self.width
    }

    pub fn height(&self) -> (r: u32)
        ensures
            r == self@.height,
    {
        self.height
    }

    /// The player's logical position; off the grid until the player is placed.
    pub fn player_pos(&self) -> (r: TilePos)
        ensures
            r == self@.player,
    {
        self.player_pos
    }

    /// Class of cell `(x, y)`, or `OutOfBounds` off the grid.
    pub fn get(&self, x: i64, y: i64) -> (r: Result<u8, MapError>)
        requires
            self.wf(),
        ensures
            self@.in_bounds(x as int, y as int) ==> r == Ok::<u8, MapError>(
                self@.cell(x as int, y as int),
            ),
            !self@.in_bounds(x as int, y as int) ==> r == Err::<u8, MapError>(MapError::OutOfBounds),
    {
        if x < 0 || y < 0 || x >= self.height as i64 || y >= self.width as i64 {
            return Err(MapError::OutOfBounds);
        }
        let len = self.cells.len();
        proof {
            lemma_cell_index(x as int, y as int, self.width as int, self.height as int);
            assert(x * self.width <= x * self.width + y < len);
        }
        let i = (x as usize) * (self.width as usize) + (y as usize);
        Ok(self.cells[i])
    }

    /// Nothing may stand on `(x, y)`: it is off the grid, or a wall.
    pub fn is_wall(&self, x: i64, y: i64) -> (r: bool)
        requires
            self.wf(),
        ensures
            r == self@.is_wall_at(x as int, y as int),
    {
        match self.get(x, y) {
            Ok(c) => c == WALL,
            Err(_) => true,
        }
    }

    /// Puts the player on `spawn`. Fails with `SpawnBlocked`, and leaves the
    /// map as it was, when `spawn` is off the grid or a wall.
    pub fn place_player(&mut self, spawn: TilePos) -> (r: Result<(), MapError>)
        requires
            old(self).wf(),
        ensures
            final(self).wf(),
            r is Ok <==> !old(self)@.is_wall_at(spawn.x as int, spawn.y as int),
            r is Err ==> r == Err::<(), MapError>(MapError::SpawnBlocked) && final(self)@ == old(
                self,
            )@,
            r is Ok ==> final(self)@ == (MapModel { player: spawn, ..old(self)@ }),
    {
        if self.is_wall(spawn.x, spawn.y) {
            return Err(MapError::SpawnBlocked);
        }
        self.player_pos = spawn;
        Ok(())
    }

    /// Moves the player one step of `(dx, dy)` along a single axis: `dx` when it
    /// is nonzero, else `dy`. The move happens, and `true` comes back, when the
    /// delta is not zero and the target cell is on the grid and not a wall;
    /// otherwise the player stays and the result is `false`.
    pub fn move_player(&mut self, dx: i64, dy: i64) -> (moved: bool)
        requires
            old(self).wf(),
        ensures
            final(self).wf(),
            moved == old(self)@.can_move(dx as int, dy as int),
            final(self)@ == (MapModel {
                player: old(self)@.moved_player(dx as int, dy as int),
                ..old(self)@
            }),
            dx != 0 ==> final(self)@.player.y == old(self)@.player.y,
            dx == 0 ==> final(self)@.player.x == old(self)@.player.x,
            !old(self)@.is_wall_at(old(self)@.player.x as int, old(self)@.player.y as int)
                ==> !final(self)@.is_wall_at(
                final(self)@.player.x as int,
                final(self)@.player.y as int,
            ),
    {
        if dx == 0 && dy == 0 {
            return false;
        }
        let target = if dx != 0 {
            match self.player_pos.x.checked_add(dx) {
                Some(x) => TilePos { x, y: self.player_pos.y },
                None => return false,
            }
        } else {
            match self.player_pos.y.checked_add(dy) {
                Some(y) => TilePos { x: self.player_pos.x, y },
                None => return false,
            }
        };
        if self.is_wall(target.x, target.y) {
            return false;
        }
        self.player_pos = target;
        true
    }
}

/// On a grid whose cells are the digits of its rows written one after
/// another, the in-bounds cell `(x, y)` is the digit at index
/// `x * width + y` of that text.
pub proof fn lemma_get_row_major(m: MapModel, rows: Seq<Seq<char>>, x: int, y: int)
    requires
        m.cells == digits(rows.flatten()),
        m.cells.len() == m.width * m.height,
        m.in_bounds(x, y),
    ensures
        m.cell(x, y) == digit_value(rows.flatten()[x * m.width + y]),
{
    lemma_cell_index(x, y, m.width as int, m.height as int);
}

/// A move whose target is off the grid is refused like a move into a wall:
/// the player stays where it was.
pub proof fn lemma_off_grid_blocks(m: MapModel, dx: int, dy: int)
    requires
        !m.in_bounds(m.move_target(dx, dy).0, m.move_target(dx, dy).1),
    ensures
        !m.can_move(dx, dy),
        m.moved_player(dx, dy) == m.player,
{
}

/// Moves keep to one axis: a nonzero `dx` never changes `y`, a zero `dx`
/// never changes `x`, and when both deltas are nonzero only `dx` counts.
pub proof fn lemma_move_single_axis(m: MapModel, dx: int, dy: int)
    ensures
        dx != 0 ==> m.moved_player(dx, dy).y == m.player.y,
        dx == 0 ==> m.moved_player(dx, dy).x == m.player.x,
        dx != 0 ==> m.moved_player(dx, dy) == m.moved_player(dx, 0),
        dx != 0 ==> m.can_move(dx, dy) == m.can_move(dx, 0),
{
}

} // verus!
