use chained::cursor::CursorTile;
use chained::game::{Session, SpawnError};
use chained::map::{GameMap, PlayerSpawn};
use chained::player::{AnimationIndices, MoveKeys};
use chained::state::{GameState, PhaseEvent};
use chained::tile::TilePos;

const ROWS: [&str; 5] = ["00000", "01110", "01110", "01110", "00000"];

fn map() -> GameMap {
    GameMap::from_rows(5, 5, &ROWS).unwrap()
}

fn spawn(x: i64, y: i64) -> Option<PlayerSpawn> {
    Some(PlayerSpawn { position: TilePos::new(x, y) })
}

#[test]
fn phases_advance_once_each() {
    let mut s = Session::new();
    assert_eq!(s.phase(), GameState::LoadMap);
    assert_eq!(s.spawn_player(spawn(1, 1)), Err(SpawnError::NotLoadingPlayer));
    assert!(s.load_map(map()));
    assert_eq!(s.phase(), GameState::LoadPlayer);
    assert!(!s.load_map(map()));
    assert_eq!(s.phase(), GameState::LoadPlayer);
    assert_eq!(s.spawn_player(None), Err(SpawnError::MissingSpawn));
    assert_eq!(s.phase(), GameState::LoadPlayer);
    assert_eq!(s.spawn_player(spawn(0, 0)), Err(SpawnError::Blocked));
    assert_eq!(s.phase(), GameState::LoadPlayer);
    assert_eq!(s.spawn_player(spawn(1, 1)), Ok(()));
    assert_eq!(s.phase(), GameState::Gameplay);
    assert_eq!(s.player_pos(), TilePos::new(1, 1));
    assert!(!s.load_map(map()));
    assert_eq!(s.spawn_player(spawn(2, 2)), Err(SpawnError::NotLoadingPlayer));
    assert_eq!(s.phase(), GameState::Gameplay);
    assert_eq!(s.player_pos(), TilePos::new(1, 1));
}

#[test]
fn phase_machine_is_one_way() {
    let events = [
        PhaseEvent::PlayerSpawned,
        PhaseEvent::MapLoaded,
        PhaseEvent::MapLoaded,
        PhaseEvent::PlayerSpawned,
        PhaseEvent::MapLoaded,
        PhaseEvent::PlayerSpawned,
    ];
    let expected = [
        GameState::LoadMap,
        GameState::LoadPlayer,
        GameState::LoadPlayer,
        GameState::Gameplay,
        GameState::Gameplay,
        GameState::Gameplay,
    ];
    let mut p = GameState::initial();
    assert_eq!(p, GameState::default());
    for (e, want) in events.iter().zip(expected.iter()) {
        p = p.advance(*e);
        assert_eq!(p, *want);
    }
    assert!(p.is_gameplay());
    assert!(!GameState::LoadPlayer.is_gameplay());
}

#[test]
fn nothing_moves_before_gameplay() {
    let mut s = Session::new();
    let right = MoveKeys { right: true, ..MoveKeys::default() };
    assert!(!s.move_player(right));
    assert!(!s.fire(true));
    s.load_map(map());
    assert!(!s.move_player(right));
    s.point_at(Some((1, 3)));
    assert!(!s.fire(true));
    assert_eq!(s.chain().visible_count(), 0);
}

#[test]
fn keys_walk_the_player() {
    let mut s = Session::new();
    s.load_map(map());
    s.spawn_player(spawn(1, 1)).unwrap();
    let right = MoveKeys { right: true, ..MoveKeys::default() };
    assert_eq!(right.delta(), (1, 0));
    assert!(s.move_player(right));
    assert_eq!(s.player_pos(), TilePos::new(2, 1));
    assert!(s.move_player(right));
    assert!(!s.move_player(right));
    assert_eq!(s.player_pos(), TilePos::new(3, 1));
    let up = MoveKeys { up: true, ..MoveKeys::default() };
    assert!(!s.move_player(up));
    let down = MoveKeys { down: true, ..MoveKeys::default() };
    assert!(s.move_player(down));
    assert_eq!(s.player_pos(), TilePos::new(3, 2));
}

#[test]
fn key_deltas() {
    let k = |left, right, up, down| MoveKeys { left, right, up, down }.delta();
    assert_eq!(k(true, false, false, false), (-1, 0));
    assert_eq!(k(false, true, false, false), (1, 0));
    assert_eq!(k(false, false, true, false), (0, -1));
    assert_eq!(k(false, false, false, true), (0, 1));
    assert_eq!(k(true, true, false, false), (0, 0));
    assert_eq!(k(false, true, false, true), (1, 1));
}

#[test]
fn cursor_rows_count_from_top() {
    assert_eq!(CursorTile::from_grid(Some((3, 0)), 15, 15), CursorTile(TilePos::new(3, 14)));
    assert_eq!(CursorTile::from_grid(Some((0, 14)), 15, 15), CursorTile(TilePos::new(0, 0)));
    assert_eq!(CursorTile::from_grid(Some((2, 1)), 4, 3), CursorTile(TilePos::new(2, 1)));
    assert_eq!(CursorTile::from_grid(Some((2, 0)), 4, 3), CursorTile(TilePos::new(2, 2)));
}

#[test]
fn cursor_off_map_is_no_tile() {
    let none = CursorTile(TilePos::new(-1000, -1000));
    assert_eq!(CursorTile::default(), none);
    assert_eq!(CursorTile::from_grid(None, 15, 15), none);
    assert_eq!(CursorTile::from_grid(Some((15, 0)), 15, 15), none);
    assert_eq!(CursorTile::from_grid(Some((0, 15)), 15, 15), none);
    assert!(!none.is_on_grid());
    assert!(CursorTile::from_grid(Some((0, 0)), 15, 15).is_on_grid());
}

#[test]
fn cursor_conversion_repeats() {
    let a = CursorTile::from_grid(Some((6, 9)), 15, 15);
    let b = CursorTile::from_grid(Some((6, 9)), 15, 15);
    assert_eq!(a, b);
    assert_eq!(a, CursorTile(TilePos::new(6, 5)));
}

#[test]
fn fire_through_session() {
    let rows = ["00000", "01110", "01110", "01110", "00000"];
    let mut s = Session::new();
    s.load_map(GameMap::from_rows(5, 5, &rows).unwrap());
    s.spawn_player(spawn(2, 2)).unwrap();
    // asset cell (2, 0) is the bottom row: tile (2, 4)
    s.point_at(Some((2, 0)));
    assert_eq!(s.cursor_tile(), CursorTile(TilePos::new(2, 4)));
    assert!(!s.fire(false));
    assert_eq!(s.chain().visible_count(), 0);
    assert!(s.fire(true));
    let slots = s.chain().slots();
    assert_eq!(s.chain().visible_count(), 2);
    assert_eq!(slots[0].pos.0, TilePos::new(2, 3));
    assert_eq!(slots[1].pos.0, TilePos::new(2, 4));
    // diagonal: nothing changes
    s.point_at(Some((4, 0)));
    let before = s.chain().slots().to_vec();
    assert!(!s.fire(true));
    assert_eq!(s.chain().slots(), &before[..]);
}

#[test]
fn animation_wraps() {
    let a = AnimationIndices { first: 0, last: 4 };
    assert_eq!(a.next_frame(0), 1);
    assert_eq!(a.next_frame(3), 4);
    assert_eq!(a.next_frame(4), 0);
    let b = AnimationIndices { first: 2, last: 2 };
    assert_eq!(b.next_frame(2), 2);
}

#[test]
fn screen_tiles_and_map_cells_line_up() {
    // three rows of four cells; floor at row 1, columns 1 and 2
    let rows = ["0000", "0110", "0000"];
    let mut s = Session::new();
    s.load_map(GameMap::from_rows(4, 3, &rows).unwrap());
    // screen tile (column 1, row 2) is map cell (2, 1): a wall
    assert_eq!(s.spawn_player(spawn(1, 2)), Err(SpawnError::Blocked));
    assert_eq!(s.spawn_player(spawn(1, 1)), Ok(()));
    assert_eq!(s.map().unwrap().player_pos(), TilePos::new(1, 1));
    let right = MoveKeys { right: true, ..MoveKeys::default() };
    assert!(s.move_player(right));
    assert_eq!(s.player_pos(), TilePos::new(2, 1));
    assert_eq!(s.map().unwrap().player_pos(), TilePos::new(1, 2));
    assert!(!s.move_player(right));
    assert_eq!(s.player_pos(), TilePos::new(2, 1));
    let down = MoveKeys { down: true, ..MoveKeys::default() };
    assert!(!s.move_player(down));
    // right and down together: only the sideways step is tried
    let left_down = MoveKeys { left: true, down: true, ..MoveKeys::default() };
    assert!(s.move_player(left_down));
    assert_eq!(s.player_pos(), TilePos::new(1, 1));
}
