//! One level's gameplay state, with each operation gated by the load phase.
//!
//! The engine runs these operations once per frame: the map is handed over
//! once loaded, the player is placed once its spawn cell is known, and from
//! then on the pointer, the movement keys and the fire button drive the game.
//!
//! The player, the cursor and the chain are screen tiles `(column, row)`;
//! the map addresses the same cell as `(row, column)`.

use vstd::prelude::*;

use crate::chain::{Chain, ChainPos, ChainSlot, LinkOrientation, fired_slots, has_target};
use crate::cursor::{CursorTile, cursor_tile_of};
use crate::map::{GameMap, MapModel, PlayerSpawn};
use crate::player::{MoveKeys, key_axis};
use crate::state::{GameState, PhaseEvent};
use crate::tile::TilePos;

verus! {

/// Why the player could not be placed this frame.
#[derive(Clone, Copy, Debug, PartialEq, Eq, Structural)]
pub enum SpawnError {
    /// The level is not waiting for its player.
    NotLoadingPlayer,
    /// The map names no spawn cell (yet).
    MissingSpawn,
    /// The spawn cell is a wall or lies off the grid.
    Blocked,
}

/// The mathematical content of a `Session`.
pub struct SessionModel {
    pub phase: GameState,
    pub map: Option<MapModel>,
    pub chain: Seq<ChainSlot>,
    pub cursor: CursorTile,
}

/// A level in play: its phase, its map once loaded, the chain and the cursor.
pub struct Session {
    phase: GameState,
    map: Option<GameMap>,
    chain: Chain,
    cursor: CursorTile,
}

impl View for Session {
    type V = SessionModel;

    closed spec fn view(&self) -> SessionModel {
        SessionModel {
            phase: self.phase,
            map: match self.map {
                Some(m) => Some(m@),
                None => None,
            },
            chain: self.chain@,
            cursor: self.cursor,
        }
    }
}

impl SessionModel {
    /// The player's screen tile: its map cell transposed once a map is
    /// loaded, else off the grid.
    pub open spec fn player(self) -> TilePos {
        match self.map {
            Some(m) => m.player.spec_transposed(),
            None => TilePos::spec_off_grid(),
        }
    }
}

impl Session {
    /// The map is there from `LoadPlayer` on, and during gameplay the player
    /// stands on a cell that is not a wall.
    pub closed spec fn wf(&self) -> bool {
        &&& self.map matches Some(m) ==> m.wf()
        &&& self.phase != GameState::LoadMap ==> self.map is Some
        &&& self.phase == GameState::Gameplay ==> (self.map matches Some(m) && !m@.is_wall_at(
            m@.player.x as int,
            m@.player.y as int,
        ))
    }

    /// A level waiting for its map, with the chain stowed and no cursor tile.
    pub fn new() -> (r: Session)
        ensures
            r.wf(),
            r@.phase == GameState::LoadMap,
            r@.map is None,
            r@.chain.len() == crate::chain::CHAIN_CAPACITY,
            forall|i: int|
                0 <= i < r@.chain.len() ==> (#[trigger] r@.chain[i]) == (ChainSlot {
                    pos: ChainPos(TilePos::spec_off_grid()),
                    visible: false,
                    orientation: LinkOrientation::Horizontal,
                }),
            r@.cursor.0 == TilePos::spec_off_grid(),
    {
        Session {
            phase: GameState::initial(),
            map: None,
            chain: Chain::new(),
            cursor: CursorTile::default(),
        }
    }

    pub fn phase(&self) -> (r: GameState)
        ensures
            r == self@.phase,
    {
        self.phase
    }

    pub fn map(&self) -> (r: Option<&GameMap>)
        ensures
            r matches Some(m) ==> self@.map == Some(m@),
            r is None ==> self@.map is None,
    {
        self.map.as_ref()
    }

    pub fn chain(&self) -> (r: &Chain)
        ensures
            r@ == self@.chain,
    {
        &self.chain
    }

    pub fn cursor_tile(&self) -> (r: CursorTile)
        ensures
            r == self@.cursor,
    {
        self.cursor
    }

    /// The player's screen tile; off the grid until a map is loaded.
    pub fn player_pos(&self) -> (r: TilePos)
        ensures
            r == self@.player(),
    {
        match &self.map {
            Some(m) => m.player_pos().transposed(),
            None => TilePos::off_grid(),
        }
    }

    /// Hands over the loaded map. While the level waits for its map, the map is
    /// kept, the phase moves to `LoadPlayer` and the result is `true`; in any
    /// other phase nothing changes and the result is `false`.
    pub fn load_map(&mut self, map: GameMap) -> (done: bool)
        requires
            old(self).wf(),
            map.wf(),
        ensures
            final(self).wf(),
            done == (old(self)@.phase == GameState::LoadMap),
            done ==> final(self)@ == (SessionModel {
                phase: GameState::LoadPlayer,
                map: Some(map@),
                ..old(self)@
            }),
            !done ==> final(self)@ == old(self)@,
            final(self)@.phase == old(self)@.phase.next(PhaseEvent::MapLoaded),
            final(self)@.phase.rank() >= old(self)@.phase.rank(),
    {
        if self.phase != GameState::LoadMap {
            return false;
        }
        self.map = Some(map);
        self.phase = self.phase.advance(PhaseEvent::MapLoaded);
        true
    }

    /// Places the player on the spawn tile. While the level waits for its
    /// player and `spawn` names a tile whose map cell is on the grid and not a
    /// wall,
    /// the player is put there and the phase moves to `Gameplay`. Otherwise
    /// nothing changes: `NotLoadingPlayer` in another phase, else
    /// `MissingSpawn` without a spawn cell, else `Blocked`.
    pub fn spawn_player(&mut self, spawn: Option<PlayerSpawn>) -> (r: Result<(), SpawnError>)
        requires
            old(self).wf(),
        ensures
            final(self).wf(),
            old(self)@.phase != GameState::LoadPlayer ==> r == Err::<(), SpawnError>(
                SpawnError::NotLoadingPlayer,
            ),
            old(self)@.phase == GameState::LoadPlayer && spawn is None ==> r == Err::<
                (),
                SpawnError,
            >(SpawnError::MissingSpawn),
            old(self)@.phase == GameState::LoadPlayer && spawn is Some ==> {
                let s = spawn->0;
                let m = old(self)@.map->0;
                if m.is_wall_at(s.position.y as int, s.position.x as int) {
                    r == Err::<(), SpawnError>(SpawnError::Blocked)
                } else {
                    &&& r is Ok
                    &&& final(self)@ == (SessionModel {
                        phase: GameState::Gameplay,
                        map: Some(MapModel { player: s.position.spec_transposed(), ..m }),
                        ..old(self)@
                    })
                }
            },
            r is Err ==> final(self)@ == old(self)@,
            r is Ok ==> final(self)@.phase == old(self)@.phase.next(PhaseEvent::PlayerSpawned),
            final(self)@.phase.rank() >= old(self)@.phase.rank(),
    {
        if self.phase != GameState::LoadPlayer {
            return Err(SpawnError::NotLoadingPlayer);
        }
        let s = match spawn {
            Some(s) => s,
            None => return Err(SpawnError::MissingSpawn),
        };
        let mut map = self.map.take().unwrap();
        match map.place_player(s.position.transposed()) {
            Ok(()) => {
                self.map = Some(map);
                self.phase = self.phase.advance(PhaseEvent::PlayerSpawned);
                Ok(())
            },
            Err(_) => {
                self.map = Some(map);
                Err(SpawnError::Blocked)
            },
        }
    }

    /// Records the map cell under the pointer (column, row counted from the
    /// bottom) as the cursor tile; with no map loaded there is no tile.
    pub fn point_at(&mut self, grid: Option<(u32, u32)>)
        requires
            old(self).wf(),
        ensures
            final(self).wf(),
            final(self)@ == (SessionModel {
                cursor: match old(self)@.map {
                    Some(m) => cursor_tile_of(grid, m.width as u32, m.height as u32),
                    None => CursorTile(TilePos::spec_off_grid()),
                },
                ..old(self)@
            }),
    {
        self.cursor = match &self.map {
            Some(m) => CursorTile::from_grid(grid, m.width(), m.height()),
            None => CursorTile::default(),
        };
    }

    /// Moves the player one tile by the keys pressed this frame, during
    /// gameplay only: sideways when the left and right keys do not cancel,
    /// else up or down; see `GameMap::move_player` for when the move is
    /// refused. Returns whether the player moved.
    pub fn move_player(&mut self, keys: MoveKeys) -> (moved: bool)
        requires
            old(self).wf(),
        ensures
            final(self).wf(),
            old(self)@.phase != GameState::Gameplay ==> !moved && final(self)@ == old(self)@,
            old(self)@.phase == GameState::Gameplay ==> {
                let m = old(self)@.map->0;
                let dx = key_axis(keys.left, keys.right);
                let dy = key_axis(keys.up, keys.down);
                let (row, col) = if dx != 0 {
                    (0, dx)
                } else {
                    (dy, 0)
                };
                &&& moved == m.can_move(row, col)
                &&& final(self)@ == (SessionModel {
                    map: Some(MapModel { player: m.moved_player(row, col), ..m }),
                    ..old(self)@
                })
            },
    {
        if self.phase != GameState::Gameplay {
            return false;
        }
        let (dx, dy) = keys.delta();
        let mut map = self.map.take().unwrap();
        let moved = if dx != 0 {
            map.move_player(0, dx)
        } else {
            map.move_player(dy, 0)
        };
        self.map = Some(map);
        moved
    }

    /// Fires the chain from the player toward the cursor tile when the fire
    /// button was pressed this frame during gameplay; see `Chain::fire`.
    /// Returns whether the chain was laid out.
    pub fn fire(&mut self, pressed: bool) -> (hit: bool)
        requires
            old(self).wf(),
        ensures
            final(self).wf(),
            hit == (pressed && old(self)@.phase == GameState::Gameplay && has_target(
                old(self)@.player(),
                old(self)@.cursor.0,
            )),
            hit ==> final(self)@ == (SessionModel {
                chain: fired_slots(old(self)@.chain, old(self)@.player(), old(self)@.cursor.0),
                ..old(self)@
            }),
            !hit ==> final(self)@ == old(self)@,
    {
        if !pressed || self.phase != GameState::Gameplay {
            return false;
        }
        let player = self.player_pos();
        self.chain.fire(player, self.cursor.0)
    }
}

} // verus!
