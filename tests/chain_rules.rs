use chained::chain::{Chain, ChainPos, LinkOrientation, CHAIN_CAPACITY};
use chained::tile::TilePos;

fn cells(c: &Chain) -> Vec<TilePos> {
    c.slots().iter().filter(|s| s.visible).map(|s| s.pos.0).collect()
}

#[test]
fn new_chain_is_hidden() {
    let c = Chain::new();
    assert_eq!(c.slots().len(), CHAIN_CAPACITY);
    assert_eq!(c.visible_count(), 0);
    for s in c.slots() {
        assert!(!s.visible);
        assert_eq!(s.pos, ChainPos::default());
        assert_eq!(s.pos.0, TilePos::new(-1000, -1000));
    }
}

#[test]
fn fire_down_a_column() {
    let mut c = Chain::new();
    assert!(c.fire(TilePos::new(2, 2), TilePos::new(2, 4)));
    let s = c.slots();
    assert_eq!(c.visible_count(), 2);
    assert!(s[0].visible && s[1].visible);
    assert_eq!(s[0].pos.0, TilePos::new(2, 3));
    assert_eq!(s[1].pos.0, TilePos::new(2, 4));
    assert_eq!(s[0].orientation, LinkOrientation::Vertical);
    assert_eq!(s[1].orientation, LinkOrientation::Vertical);
    for i in 2..5 {
        assert!(!s[i].visible);
    }
}

#[test]
fn fire_along_a_row() {
    let mut c = Chain::new();
    assert!(c.fire(TilePos::new(2, 2), TilePos::new(4, 2)));
    let s = c.slots();
    assert_eq!(cells(&c), vec![TilePos::new(3, 2), TilePos::new(4, 2)]);
    assert_eq!(s[0].orientation, LinkOrientation::Horizontal);
    assert_eq!(s[1].orientation, LinkOrientation::Horizontal);
    assert!(!s[2].visible && !s[3].visible && !s[4].visible);
}

#[test]
fn fire_backward_runs_outward_from_player() {
    let mut c = Chain::new();
    assert!(c.fire(TilePos::new(5, 7), TilePos::new(2, 7)));
    assert_eq!(
        cells(&c),
        vec![TilePos::new(4, 7), TilePos::new(3, 7), TilePos::new(2, 7)]
    );
    assert!(c.fire(TilePos::new(5, 7), TilePos::new(5, 6)));
    assert_eq!(cells(&c), vec![TilePos::new(5, 6)]);
    assert_eq!(c.slots()[0].orientation, LinkOrientation::Vertical);
}

#[test]
fn fire_far_is_cut_at_capacity() {
    let mut c = Chain::new();
    assert!(c.fire(TilePos::new(0, 3), TilePos::new(12, 3)));
    assert_eq!(c.visible_count(), CHAIN_CAPACITY);
    assert_eq!(
        cells(&c),
        (1..=5).map(|x| TilePos::new(x, 3)).collect::<Vec<_>>()
    );
}

#[test]
fn fire_at_extreme_coordinates() {
    let mut c = Chain::new();
    assert!(c.fire(TilePos::new(i64::MIN, 0), TilePos::new(i64::MAX, 0)));
    assert_eq!(c.visible_count(), 5);
    assert_eq!(c.slots()[4].pos.0, TilePos::new(i64::MIN + 5, 0));
}

#[test]
fn visible_count_matches_shorter_run() {
    let mut c = Chain::new();
    for n in 1..9i64 {
        assert!(c.fire(TilePos::new(0, 0), TilePos::new(0, -n)));
        assert_eq!(c.visible_count() as i64, n.min(5));
        let v = cells(&c);
        for (i, p) in v.iter().enumerate() {
            assert_eq!(*p, TilePos::new(0, -(i as i64) - 1));
        }
    }
}

#[test]
fn hidden_slots_keep_old_cells() {
    let mut c = Chain::new();
    assert!(c.fire(TilePos::new(0, 0), TilePos::new(4, 0)));
    assert!(c.fire(TilePos::new(0, 0), TilePos::new(0, 1)));
    let s = c.slots();
    assert!(s[0].visible);
    assert_eq!(s[0].pos.0, TilePos::new(0, 1));
    assert!(!s[1].visible);
    assert_eq!(s[1].pos.0, TilePos::new(2, 0));
    assert_eq!(s[1].orientation, LinkOrientation::Horizontal);
}

#[test]
fn no_shared_axis_changes_nothing() {
    let mut c = Chain::new();
    assert!(c.fire(TilePos::new(1, 1), TilePos::new(1, 3)));
    let before: Vec<_> = c.slots().to_vec();
    // diagonal
    assert!(!c.fire(TilePos::new(1, 1), TilePos::new(3, 3)));
    assert_eq!(c.slots(), &before[..]);
    // same tile
    assert!(!c.fire(TilePos::new(1, 1), TilePos::new(1, 1)));
    assert_eq!(c.slots(), &before[..]);
}
